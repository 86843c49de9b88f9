use vstd::prelude::*;
use vstd::string::StringExecFns;

verus! {

/// A sink for generated source text. It gathers the text in memory; whoever
/// owns the sink decides where the text goes.
#[derive(Debug)]
pub struct CodeWriter {
    pub text: String,
}

impl View for CodeWriter {
    type V = Seq<char>;

    open spec fn view(&self) -> Seq<char> {
        self.text@
    }
}

/// A line of text: the text and a line feed.
pub open spec fn line(text: Seq<char>) -> Seq<char> {
    text + "\n"@
}

impl CodeWriter {
    /// A sink that holds no text yet.
    pub fn new() -> (r: CodeWriter)
        ensures
            r@ == Seq::<char>::empty(),
    {
        CodeWriter { text: String::new() }
    }

    /// Writes code and stays on the line.
    pub fn code(&mut self, code: &str)
        ensures
            final(self)@ == old(self)@ + code@,
    {
        self.text.append(code);
    }

    /// Writes code and ends the line.
    pub fn codenl(&mut self, code: &str)
        ensures
            final(self)@ == old(self)@ + line(code@),
    {
        self.text.append(code);
        self.text.append("\n");
        assert(self@ =~= old(self)@ + line(code@));
    }

    /// Writes a comment on a line of its own.
    pub fn comment(&mut self, comment: &str)
        ensures
            final(self)@ == old(self)@ + "// "@ + line(comment@),
    {
        self.text.append("// ");
        self.text.append(comment);
        self.text.append("\n");
        assert(self@ =~= old(self)@ + "// "@ + line(comment@));
    }

    /// Writes a documentation comment on a line of its own.
    pub fn doc(&mut self, comment: &str)
        ensures
            final(self)@ == old(self)@ + "/// "@ + line(comment@),
    {
        self.text.append("/// ");
        self.text.append(comment);
        self.text.append("\n");
        assert(self@ =~= old(self)@ + "/// "@ + line(comment@));
    }

    /// The text that has been written.
    pub fn into_string(self) -> (r: String)
        ensures
            r@ == self@,
    {
        self.text
    }
}

} // verus!
