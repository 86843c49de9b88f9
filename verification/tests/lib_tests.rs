use peregrine_codegen::codegen::generate;

#[test]
fn lib_it_works() {
    let instructions = r#"{
        "instruction_set": "x86-64",
        "instructions": {
            "NOP": {
                "summary": "No Operation",
                "forms": [ { "encodings": [ { "opcode": { "byte": "90" } } ] } ]
            }
        }
    }"#;
    let groups = r#"{ "misc": ["NOP"] }"#;
    generate(instructions, groups).unwrap();
}
