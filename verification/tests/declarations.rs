use a2x::args::CLIArgs;
use a2x::ast::advice::AdviceDef;
use a2x::ast::attribute::Attribute;
use a2x::ast::category::{standard_categories, Category};
use a2x::ast::constant::Constant;
use a2x::ast::import::Import;
use a2x::ast::infix::{Infix, InfixSignature};
use a2x::ast::obligation::ObligationDef;
use a2x::ast::policycombinator::{
    protected_policycombinators, standard_policycombinators, PolicyCombinator,
};
use a2x::ast::rulecombinator::{protected_rulecombinators, standard_rulecombinators};
use a2x::ast::std_attributes::standard_attributes;
use a2x::ast::std_functions::standard_functions;
use a2x::ast::std_infix::standard_infix;
use a2x::ast::typedef::{standard_types, TypeDef};
use a2x::ast::{AsAlfa, PrettyPrint, QualifiedName};
use a2x::context::{Config, Context};
use a2x::resolver::Resolver;

fn ns(parts: &[&str]) -> Vec<String> {
    parts.iter().map(|s| s.to_string()).collect()
}

#[test]
fn qualified_names() {
    let t = TypeDef {
        id: "t".to_owned(),
        uri: "urn:t".to_owned(),
        ns: ns(&["a", "b"]),
    };
    assert_eq!(t.fully_qualified_name(), Some("a.b.t".to_owned()));
    let c = Category {
        id: "c".to_owned(),
        uri: "urn:c".to_owned(),
        ns: vec![],
    };
    // without a namespace the dot stays
    assert_eq!(c.fully_qualified_name(), Some(".c".to_owned()));
    let a = AdviceDef {
        id: "adv".to_owned(),
        uri: "urn:adv".to_owned(),
        ns: ns(&["main"]),
    };
    assert_eq!(a.fully_qualified_name(), Some("main.adv".to_owned()));
    let o = ObligationDef {
        id: "obl".to_owned(),
        uri: "urn:obl".to_owned(),
        ns: ns(&["main"]),
    };
    assert_eq!(o.fully_qualified_name(), Some("main.obl".to_owned()));
    let i = Infix {
        operator: "<".to_owned(),
        allow_bags: false,
        commutative: false,
        signatures: vec![],
        ns: ns(&["_A2X"]),
        inverse: None,
    };
    assert_eq!(i.fully_qualified_name(), Some("_A2X.<".to_owned()));
}

#[test]
fn declarations_as_alfa() {
    let t = TypeDef {
        id: "anyURI".to_owned(),
        uri: "http://www.w3.org/2001/XMLSchema#anyURI".to_owned(),
        ns: ns(&["_A2X"]),
    };
    assert_eq!(
        t.to_alfa(1),
        "  type anyURI = \"http://www.w3.org/2001/XMLSchema#anyURI\"\n"
    );
    assert_eq!(t.to_alfa(0), "type anyURI = \"http://www.w3.org/2001/XMLSchema#anyURI\"\n");
    let c = Category {
        id: "actionCat".to_owned(),
        uri: "urn:cat".to_owned(),
        ns: vec![],
    };
    assert_eq!(c.to_alfa(2), "    category actionCat = \"urn:cat\"\n");
    let pc = PolicyCombinator {
        id: "denyOverrides".to_owned(),
        uri: "urn:do".to_owned(),
        ns: ns(&["_A2X"]),
    };
    assert_eq!(pc.to_alfa(1), "  policyCombinator denyOverrides = \"urn:do\"\n");
    assert_eq!(pc.to_string(), "PolicyCombinator: \"_A2X.denyOverrides\" => \"urn:do\"");
    let a = Attribute {
        id: "subjectId".to_owned(),
        typedef: "string".to_owned(),
        category: "subjectCat".to_owned(),
        uri: "urn:subject-id".to_owned(),
        ns: ns(&["_A2X"]),
    };
    assert_eq!(
        a.to_alfa(1),
        "  attribute subjectId {\n    id = \"urn:subject-id\"\n    type = string\n    category = subjectCat\n  }\n"
    );
    assert_eq!(a.to_string(), "Attribute: \"subjectId\" => \"urn:subject-id\"");
    assert_eq!(a.pretty_print(1), "  Attribute: \"subjectId\" => \"urn:subject-id\"\n");
}

#[test]
fn an_infix_operator_as_alfa() {
    let i = Infix {
        operator: "<".to_owned(),
        allow_bags: true,
        commutative: false,
        signatures: vec![
            InfixSignature {
                uri: "urn:int-lt".to_owned(),
                first_arg: "integer".to_owned(),
                second_arg: "integer".to_owned(),
                output: "boolean".to_owned(),
            },
            InfixSignature {
                uri: "urn:dbl-lt".to_owned(),
                first_arg: "double".to_owned(),
                second_arg: "double".to_owned(),
                output: "boolean".to_owned(),
            },
        ],
        ns: ns(&["_A2X"]),
        inverse: Some(">".to_owned()),
    };
    assert_eq!(
        i.to_alfa(1),
        "  infix allowbags (<) = {\n    \"urn:int-lt\" : integer integer -> boolean\n    \"urn:dbl-lt\" : double double -> boolean\n  } inv >\n"
    );
    let plain = Infix {
        operator: "*".to_owned(),
        allow_bags: false,
        commutative: true,
        signatures: vec![],
        ns: vec![],
        inverse: None,
    };
    assert_eq!(plain.to_alfa(0), "infix comm (*) = {\n}\n");
    assert_eq!(plain.to_string(), "infix (*)");
    assert_eq!(
        i.signatures[0].to_string(),
        "infix-sig (urn:int-lt) integer, integer => boolean"
    );
}

#[test]
fn imports_and_constants_as_text() {
    let i = Import {
        components: ns(&["a", "b"]),
        is_wildcard: true,
    };
    assert_eq!(i.to_string(), "Import: \"a.b\" *");
    let i = Import {
        components: ns(&["a", "b"]),
        is_wildcard: false,
    };
    assert_eq!(i.to_string(), "Import: \"a.b\" ");
    assert_eq!(Constant::String("a\"b".to_owned()).to_string(), "\"a\\\"b\"");
    assert_eq!(Constant::Integer("3".to_owned()).to_string(), "3");
    assert_eq!(Constant::Double("3.99".to_owned()).to_string(), "3.99");
    assert_eq!(Constant::Boolean(true).to_string(), "true");
    assert_eq!(Constant::Undefined.to_string(), "unhandled");
}

#[test]
fn the_built_in_tables() {
    let types = standard_types();
    assert_eq!(types.len(), 17);
    assert_eq!(types[0].id, "string");
    assert_eq!(types[16].id, "ipAddress");
    assert_eq!(
        types[16].uri,
        "urn:oasis:names:tc:xacml:2.0:data-type:ipAddress"
    );
    assert!(types.iter().all(|t| t.ns == ns(&["_A2X"])));
    assert_eq!(standard_categories().len(), 8);
    assert_eq!(standard_policycombinators().len(), 9);
    assert_eq!(standard_rulecombinators().len(), 7);
    let protected = protected_policycombinators();
    assert_eq!(protected.len(), 2);
    assert_eq!(protected[0].id, "permitOverrides");
    assert_eq!(protected[1].id, "onPermitApplySecond");
    assert_eq!(protected[1].ns, ns(&["_A2X.PROTECTED"]));
    assert_eq!(protected_rulecombinators().len(), 1);
    assert_eq!(standard_attributes().len(), 17);
    let infix = standard_infix();
    assert_eq!(infix.len(), 11);
    assert_eq!(infix[0].operator, "==");
    assert!(infix[0].allow_bags);
    assert_eq!(infix[0].signatures.len(), 14);
    let functions = standard_functions();
    assert_eq!(functions.len(), 253);
    assert_eq!(functions[0].id, "stringEqual");
    assert_eq!(functions[252].id, "accessPermitted");
    assert!(functions.iter().all(|f| f.ns == ns(&["_A2X"])));
    // no name twice
    let mut names: Vec<&String> = functions.iter().map(|f| &f.id).collect();
    names.sort();
    names.dedup();
    assert_eq!(names.len(), 253);
}

#[test]
fn elements_come_by_name() {
    let mut r: Resolver<TypeDef> = Resolver::new();
    for id in ["m", "b", "z", "a", "ab"] {
        r.register(TypeDef {
            id: id.to_owned(),
            uri: format!("urn:{}", id),
            ns: ns(&["n"]),
        })
        .unwrap();
    }
    let ids: Vec<&str> = r.elements().iter().map(|t| t.id.as_str()).collect();
    assert_eq!(ids, vec!["a", "ab", "b", "m", "z"]);
    assert_eq!(r.order_by_name(), vec![3, 4, 1, 0, 2]);
}

#[test]
fn the_built_ins_as_alfa() {
    let c = Context::new(Config::default()).unwrap();
    let text = c.serialize_builtins();
    assert!(text.starts_with("namespace _A2X {\n\n  /** Categories **/\n\n  category "));
    assert!(text.ends_with("}\n"));
    assert!(text.contains("\n  /** Type Definitions **/\n\n  type anyURI = \"http://www.w3.org/2001/XMLSchema#anyURI\"\n  type base64Binary"));
    assert!(text.contains("  function stringEqual = \"urn:oasis:names:tc:xacml:1.0:function:string-equal\" : string string -> boolean\n"));
    assert!(text.contains("\n  /** Infix Operators **/\n\n  infix "));
    // the protected algorithms sort in with the others
    assert!(text.contains("  policyCombinator onPermitApplySecond = "));
    let bare = Context::new(Config {
        base_namespace: None,
        enable_builtins: false,
        version: None,
    })
    .unwrap();
    assert_eq!(
        bare.serialize_builtins(),
        "namespace _A2X {\n\n  /** Categories **/\n\n\n  /** Type Definitions **/\n\n\n  /** Attributes **/\n\n\n  /** Policy Combining Algorithms **/\n\n  policyCombinator onPermitApplySecond = \"urn:oasis:names:tc:xacml:3.0:policy-combining-algorithm:on-permit-apply-second\"\n  policyCombinator permitOverrides = \"urn:oasis:names:tc:xacml:3.0:policy-combining-algorithm:permit-overrides\"\n\n  /** Rule Combining Algorithms **/\n\n  ruleCombinator permitOverrides = \"urn:oasis:names:tc:xacml:3.0:rule-combining-algorithm:permit-overrides\"\n\n  /** Functions **/\n\n\n  /** Infix Operators **/\n\n}\n"
    );
}

#[test]
fn arguments_give_the_configuration() {
    let args = CLIArgs {
        alfa_dir: vec![],
        show_builtins: false,
        disable_builtins: true,
        output_dir: None,
        base_namespace: Some("urn:base:".to_owned()),
    };
    assert_eq!(
        args.config(),
        Config {
            base_namespace: Some("urn:base:".to_owned()),
            enable_builtins: false,
            version: Some("1.0".to_owned()),
        }
    );
    assert!(CLIArgs::default().config().enable_builtins);
}

#[test]
fn every_configuration_gives_a_context() {
    assert!(Context::new(Config::default()).is_ok());
    assert!(Context::new(Config {
        base_namespace: None,
        enable_builtins: false,
        version: None,
    })
    .is_ok());
}

#[test]
fn the_table_of_operators_pairs_its_inverses() {
    let table = standard_infix();
    for op in table.iter() {
        if let Some(inverse) = &op.inverse {
            assert!(!op.commutative);
            let other = table.iter().find(|o| &o.operator == inverse).unwrap();
            assert_eq!(other.inverse.as_ref(), Some(&op.operator));
        }
    }
    let minus = table.iter().find(|o| o.operator == "-").unwrap();
    assert!(!minus.commutative);
    assert_eq!(minus.inverse, None);
}

#[test]
fn the_tables_name_nothing_twice() {
    let mut names: Vec<String> = standard_functions().into_iter().map(|f| f.id).collect();
    assert_eq!(names.len(), 253);
    names.sort();
    names.dedup();
    assert_eq!(names.len(), 253);
    let any_of = standard_functions().into_iter().find(|f| f.id == "anyOf").unwrap();
    assert_eq!(any_of.function_uri, "urn:oasis:names:tc:xacml:3.0:function:any-of");
    let resource = standard_attributes().into_iter().find(|a| a.id == "resourceId").unwrap();
    assert_eq!(resource.uri, "urn:oasis:names:tc:xacml:1.0:resource:resource-id");
    assert_eq!(resource.typedef, "string");
    assert_eq!(resource.category, "resourceCat");
}

#[test]
fn errors_say_what_went_wrong() {
    assert_eq!(
        a2x::errors::ParseError::DuplicateSymbol("main.p".to_owned()).message(),
        "Duplicate symbol: main.p"
    );
    assert_eq!(
        a2x::errors::ParseError::AstConvertError.message(),
        "Conversion into AST error"
    );
    assert_eq!(a2x::errors::ParseError::AstConvertError.label(), None);
}
