use a2x::ast::condition::{CondExpression, Condition};
use a2x::ast::constant::{Constant, CustomType};
use a2x::ast::function::{Function, FunctionInputArg, FunctionInputs, FunctionOutputArg};
use a2x::ast::import::Import;
use a2x::ast::infix::{Infix, InfixSignature};
use a2x::ast::namespace::Namespace;
use a2x::ast::naming::GenName;
use a2x::ast::operator::Operator;
use a2x::ast::policy::{Policy, PolicyId, RuleCombiningAlgorithm};
use a2x::ast::policyset::{PolicyCombiningAlgorithm, PolicyEntry, PolicyReference, PolicySet};
use a2x::ast::prescription::Prescription;
use a2x::ast::rule::{Effect, RuleDef, RuleEntry, RuleReference};
use a2x::ast::target::{
    ConjunctiveSeq, DisjunctiveSeq, Match, MatchFunction, MatchOperation, Target,
};
use a2x::ast::typedef::TypeDef;
use a2x::ast::PrettyPrint;
use a2x::context::{Config, Context};
use a2x::errors::{trimmed_length, SrcLoc};

fn ns(parts: &[&str]) -> Vec<String> {
    parts.iter().map(|s| s.to_string()).collect()
}

fn operation() -> MatchOperation {
    MatchOperation {
        attribute: ns(&["subject", "role"]),
        operator: Operator {
            ns: vec![],
            operator: "==".to_owned(),
        },
        literal: Constant::String("admin".to_owned()),
        reversed: false,
        issuer: None,
        mustbepresent: false,
    }
}

fn function_match() -> MatchFunction {
    MatchFunction {
        function_id: ns(&["lib", "startsWith"]),
        literal: Constant::Custom(
            CustomType {
                name: "ipAddress".to_owned(),
            },
            "10.0.0.1".to_owned(),
        ),
        attribute: ns(&["addr"]),
        issuer: Some("me \"too\"".to_owned()),
        mustbepresent: true,
    }
}

fn target() -> Target {
    Target {
        clauses: vec![
            DisjunctiveSeq {
                statements: vec![
                    ConjunctiveSeq {
                        matches: vec![
                            Match::MatchOp(operation()),
                            Match::MatchFunc(function_match()),
                        ],
                    },
                    ConjunctiveSeq { matches: vec![] },
                ],
            },
            DisjunctiveSeq { statements: vec![] },
        ],
        ns: ns(&["main"]),
    }
}

#[test]
fn matches_in_one_line() {
    assert_eq!(operation().to_string(), "\"subject.role\" == String(\"admin\")");
    let f = function_match();
    // each field as the derived `Debug` shows it
    assert_eq!(f.to_string(), format!("{:?}", f));
    assert_eq!(
        f.to_string(),
        "MatchFunction { function_id: [\"lib\", \"startsWith\"], literal: Custom(CustomType { name: \"ipAddress\" }, \"10.0.0.1\"), attribute: [\"addr\"], issuer: Some(\"me \\\"too\\\"\"), mustbepresent: true }"
    );
    assert_eq!(Match::MatchFunc(function_match()).to_string(), f.to_string());
    for c in [
        Constant::String("a\nb".to_owned()),
        Constant::Integer("3".to_owned()),
        Constant::Double("3.5".to_owned()),
        Constant::Boolean(true),
        Constant::Boolean(false),
        Constant::Undefined,
    ] {
        assert_eq!(c.to_debug_string(), format!("{:?}", c));
    }
    let empty = MatchFunction::default();
    assert_eq!(empty.to_string(), format!("{:?}", empty));
}

#[test]
fn a_target_listed() {
    assert_eq!(
        target().pretty_print(1),
        [
        "  Target: 2 AnyOf\n",
        "    AnyOf: 2 stmts\n",
        "      AllOf: 2 matches\n",
        "        \"subject.role\" == String(\"admin\")\n",
        "        MatchFunction { function_id: [\"lib\", \"startsWith\"], literal: Custom(CustomType { name: \"ipAddress\" }, \"10.0.0.1\"), attribute: [\"addr\"], issuer: Some(\"me \\\"too\\\"\"), mustbepresent: true }\n",
        "      AllOf: 0 matches\n",
        "    AnyOf: 0 stmts\n",
    ]
    .concat()
    );
    assert_eq!(target().list("> "), target().pretty_print(0).lines().map(|l| format!("> {}\n", l)).collect::<String>());
}

fn rule(c: &mut Context, name: &str, path: &GenName) -> RuleDef {
    let _ = c;
    RuleDef {
        id: Some(name.to_owned()),
        ns: ns(&["main"]),
        policy_ns: path.clone(),
        description: None,
        effect: Effect::Permit,
        target: Some(Target {
            clauses: vec![],
            ns: ns(&["main"]),
        }),
        condition: Some(Condition {
            cond_expr: CondExpression::Infix(
                Box::new(CondExpression::Lit(Constant::Integer("1".to_owned()))),
                Operator {
                    ns: vec![],
                    operator: "<".to_owned(),
                },
                Box::new(CondExpression::Lit(Constant::Integer("2".to_owned()))),
            ),
            ns: ns(&["main"]),
            src_loc: SrcLoc::default(),
        }),
        prescriptions: vec![],
    }
}

fn policy(c: &mut Context) -> Policy {
    let slot = c.slots.new_slot(Some("p".to_owned()));
    let mut path = GenName::default();
    path.push_name(slot);
    Policy {
        id: PolicyId::PolicyName("p".to_owned()),
        ns: ns(&["main"]),
        policy_ns: path.clone(),
        src_loc: SrcLoc::default(),
        description: None,
        target: Some(Target {
            clauses: vec![DisjunctiveSeq { statements: vec![] }],
            ns: ns(&["main"]),
        }),
        condition: None,
        apply: RuleCombiningAlgorithm {
            id: "firstApplicable".to_owned(),
            src_loc: SrcLoc::default(),
        },
        rules: vec![
            RuleEntry::Def(rule(c, "r", &path)),
            RuleEntry::Ref(RuleReference {
                id: "shared".to_owned(),
                ns: ns(&["lib"]),
                src_loc: SrcLoc::default(),
            }),
        ],
        prescriptions: vec![],
    }
}

fn policy_lines() -> String {
    [
        "Policy: \"main.p\" (descr: None) (algorithm: firstApplicable)\n",
        "  Target: 1 AnyOf\n",
        "    AnyOf: 0 stmts\n",
        "  Rule Def: Some(\"main.p.r\"), effect: Permit\n",
        "    Target: 0 AnyOf\n",
        "    Condition: (1 < 2)\n",
        "  Rule Reference: Some(\"lib.shared\")\n",
    ]
    .concat()
}

#[test]
fn a_policy_listed() {
    let mut c = Context::new(Config::default()).unwrap();
    let p = policy(&mut c);
    assert_eq!(p.pretty_print(0, &c.slots), policy_lines());
    assert_eq!(
        p.rules[1].pretty_print(2, &c.slots),
        "    Rule Reference: Some(\"lib.shared\")\n"
    );
    match &p.rules[0] {
        RuleEntry::Def(r) => {
            assert_eq!(
                r.condition.as_ref().unwrap().pretty_print(1),
                "  Condition: (1 < 2)\n"
            );
            assert_eq!(
                r.pretty_print(0, &c.slots),
                "Rule Def: Some(\"main.p.r\"), effect: Permit\n  Target: 0 AnyOf\n  Condition: (1 < 2)\n"
            );
        }
        RuleEntry::Ref(_) => panic!("a definition was expected"),
    }
    let entry = PolicyEntry::Policy(p);
    assert_eq!(entry.pretty_print(0, &c.slots), policy_lines());
    let reference = PolicyEntry::Ref(PolicyReference {
        id: "x".to_owned(),
        ns: vec![],
    });
    assert_eq!(reference.pretty_print(1, &c.slots), "  policy reference\n");
    let set = PolicySet {
        id: PolicyId::PolicyNoName,
        ns: vec![],
        policy_ns: GenName::default(),
        src_loc: SrcLoc::default(),
        description: None,
        target: None,
        condition: None,
        apply: PolicyCombiningAlgorithm {
            id: "denyOverrides".to_owned(),
            src_loc: SrcLoc::default(),
        },
        policies: vec![entry],
        prescriptions: vec![],
    };
    assert_eq!(set.pretty_print(3), "      policy set\n");
    assert_eq!(
        PolicyEntry::PolicySet(set).pretty_print(1, &c.slots),
        "  policy set\n"
    );
    let block = Prescription {
        effect: Effect::Deny,
        ns: vec![],
        expressions: vec![],
    };
    assert_eq!(block.to_string(), "Prescription");
    assert_eq!(block.pretty_print(1), "  Prescription\n");
}

#[test]
fn a_namespace_listed() {
    let mut c = Context::new(Config {
        base_namespace: None,
        enable_builtins: false,
        version: None,
    })
    .unwrap();
    let mut main = Namespace::new_root("main".to_owned());
    main.add_import(
        Import {
            components: ns(&["lib"]),
            is_wildcard: true,
        },
        &mut c,
    );
    main.add_typedef(
        TypeDef {
            id: "t".to_owned(),
            uri: "urn:t".to_owned(),
            ns: ns(&["main"]),
        },
        &mut c,
    )
    .unwrap();
    main.add_function(
        Function {
            id: "f".to_owned(),
            ns: ns(&["main"]),
            function_uri: "urn:f".to_owned(),
            input_args: FunctionInputs {
                args: vec![FunctionInputArg::Atomic("string".to_owned())],
                wildcard: false,
            },
            output_arg: FunctionOutputArg::Atomic("boolean".to_owned()),
        },
        &mut c,
    )
    .unwrap();
    main.add_infix(
        Infix {
            operator: "<".to_owned(),
            allow_bags: false,
            commutative: false,
            signatures: vec![InfixSignature {
                uri: "urn:lt".to_owned(),
                first_arg: "integer".to_owned(),
                second_arg: "integer".to_owned(),
                output: "boolean".to_owned(),
            }],
            ns: ns(&["main"]),
            inverse: None,
        },
        &mut c,
    )
    .unwrap();
    let p = policy(&mut c);
    main.add_policy(p, &mut c).unwrap();
    let mut inner = Namespace::from_components(ns(&["main", "inner"]));
    inner
        .add_typedef(
            TypeDef {
                id: "u".to_owned(),
                uri: "urn:u".to_owned(),
                ns: ns(&["main", "inner"]),
            },
            &mut c,
        )
        .unwrap();
    main.add_namespace(inner);
    let f = c.lookup_function("main.f", &[]).unwrap().to_string();
    let mut expected = String::new();
    expected.push_str("Namespace: \"main\"\n");
    expected.push_str("  Import: \"lib\" *\n");
    expected.push_str("  Type: \"t\" => \"urn:t\"\n");
    expected.push_str(&format!("  {}\n", f));
    expected.push_str("  infix (<)    infix-sig (urn:lt) integer, integer => boolean\n");
    for l in policy_lines().lines() {
        expected.push_str(&format!("  {}\n", l));
    }
    expected.push_str("  Namespace: \"main.inner\"\n");
    expected.push_str("    Type: \"u\" => \"urn:u\"\n");
    assert_eq!(main.pretty_print(0, &c), expected);
}

#[test]
fn white_space_at_the_end_of_a_span() {
    assert_eq!(trimmed_length(b"ab \t\r\n\x0c "), 2);
    assert_eq!(trimmed_length(b"  "), 0);
    assert_eq!(trimmed_length(b""), 0);
    assert_eq!(trimmed_length(b" a b"), 4);
    // a vertical tab is no white space here
    assert_eq!(trimmed_length(b"a\x0b"), 2);
    let source = b"xy  policy p  \n{ }";
    let mut loc = SrcLoc::new("a.alfa", 4, 11);
    loc.trim_trailing_whitespace(source);
    assert_eq!(loc, SrcLoc::new("a.alfa", 4, 8));
    let mut tight = SrcLoc::new("a.alfa", 4, 8);
    tight.trim_trailing_whitespace(source);
    assert_eq!(tight, SrcLoc::new("a.alfa", 4, 8));
    // a span that reaches far behind the end of the source stays
    let mut outside = SrcLoc::new("a.alfa", 4, 100);
    outside.trim_trailing_whitespace(source);
    assert_eq!(outside, SrcLoc::new("a.alfa", 4, 100));
    let mut kept = SrcLoc::new("a.alfa", 1, 1);
    kept.trim_to(&None);
    assert_eq!(kept, SrcLoc::new("a.alfa", 1, 1));
    kept.trim_to(&Some(b"abc  ".to_vec()));
    assert_eq!(kept, SrcLoc::new("a.alfa", 1, 3));
}
