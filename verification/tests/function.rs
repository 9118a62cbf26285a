use a2x::ast::function::{Function, FunctionInputArg, FunctionInputs, FunctionOutputArg};
use a2x::ast::AsAlfa;

#[test]
fn test_serialize() {
    // every kind of input argument, and a wildcard behind them
    let args = vec![
        FunctionInputArg::Atomic("string".to_owned()),
        FunctionInputArg::AtomicBag("boolean".to_owned()),
        FunctionInputArg::AnyAtomic,
        FunctionInputArg::AnyAtomicBag,
        FunctionInputArg::AnyAtomicOrBag,
        FunctionInputArg::Function,
    ];
    let output_arg = FunctionOutputArg::AtomicBag("string".to_owned());
    let f = Function {
        id: "fn_name".to_owned(),
        ns: vec!["main".to_owned()],
        function_uri: "urn:oasis:sample".to_owned(),
        input_args: FunctionInputs {
            args,
            wildcard: true,
        },
        output_arg,
    };
    let a = f.to_alfa(1);
    assert_eq!(
        a,
        "  function fn_name = \"urn:oasis:sample\" : string bag[boolean] anyAtomic bag[anyAtomic] anyAtomicOrBag function * -> bag[string]\n"
    );
}

#[test]
fn function_display_lists_arguments_with_commas() {
    let f = Function {
        id: "f".to_owned(),
        ns: vec![],
        function_uri: "urn:f".to_owned(),
        input_args: FunctionInputs {
            args: vec![
                FunctionInputArg::Atomic("string".to_owned()),
                FunctionInputArg::AnyAtomicBag,
            ],
            wildcard: false,
        },
        output_arg: FunctionOutputArg::Atomic("boolean".to_owned()),
    };
    assert_eq!(f.to_string(), "fn f <urn:f> (string, bag[anyAtomic]) ==> boolean");
}
