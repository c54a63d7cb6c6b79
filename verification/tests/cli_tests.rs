use terse_cli::builder::command;
use terse_cli::commands::{command_one, command_three, command_two, ExampleOp};
use terse_cli::compose::{compose, subcommands};
use terse_cli::errors::{BuildError, ComposeError};
use terse_cli::label::get_command_name;
use terse_cli::numtext::int_text;
use terse_cli::schema::{Flag, Param, Signature};
use terse_cli::tree::{run, ArgValue, CommandModule, Invocation};

fn sig(ident: &str, params: &[(&str, &str)], docs: &[&str]) -> Signature {
    Signature {
        ident: ident.to_string(),
        params: params
            .iter()
            .map(|(b, t)| Param { binding: b.to_string(), ty: t.to_string() })
            .collect(),
        docs: docs.iter().map(|d| d.to_string()).collect(),
    }
}

#[test]
pub fn test_command_macro() {
    let s = sig("my_func", &[("a", "i32"), ("b", "i32")], &[]);
    let m = command(s, ()).unwrap();
    match m {
        CommandModule::Leaf { ident, docs, schema, op: () } => {
            assert_eq!(ident, "my_func");
            assert!(docs.is_empty());
            assert_eq!(
                schema,
                vec![
                    Flag { name: "a".to_string(), ty: "i32".to_string(), required: true },
                    Flag { name: "b".to_string(), ty: "i32".to_string(), required: true },
                ]
            );
        }
        CommandModule::Group { .. } => panic!("expected a leaf"),
    }
}

#[test]
pub fn test_command_macro_no_args() {
    let s = sig("my_func", &[], &[]);
    let m = command(s, ()).unwrap();
    match m {
        CommandModule::Leaf { ident, schema, .. } => {
            assert_eq!(ident, "my_func");
            assert!(schema.is_empty());
        }
        CommandModule::Group { .. } => panic!("expected a leaf"),
    }
}

#[test]
pub fn test_subcommands_macro() {
    let m1 = command(sig("command_one", &[("a", "i32")], &[]), ()).unwrap();
    let m2 = command(sig("command_two", &[("name", "String")], &[]), ()).unwrap();
    let g = subcommands("cli, [command_one, command_two]", vec![m1, m2], vec![]).unwrap();
    match g {
        CommandModule::Group { ident, variants, .. } => {
            assert_eq!(ident, "cli");
            let labels: Vec<&str> = variants.iter().map(|v| v.label.as_str()).collect();
            assert_eq!(labels, vec!["CommandOne", "CommandTwo"]);
            match &variants[0].module {
                CommandModule::Leaf { ident, .. } => assert_eq!(ident, "command_one"),
                CommandModule::Group { .. } => panic!("expected a leaf"),
            }
        }
        CommandModule::Leaf { .. } => panic!("expected a group"),
    }
}

#[test]
fn derived_label_is_upper_camel() {
    assert_eq!(get_command_name("command_two"), "CommandTwo");
    assert_eq!(get_command_name("command_two"), get_command_name("command_two"));
    assert_eq!(get_command_name("my_subcommands"), "MySubcommands");
}

#[test]
fn optional_parameter_flag_is_not_required() {
    let s = sig("command_one", &[("a", "i32"), ("b", "Option<i32>")], &[]);
    let m = command(s, ()).unwrap();
    match m {
        CommandModule::Leaf { schema, .. } => {
            assert!(schema[0].required);
            assert!(!schema[1].required);
            assert_eq!(schema[1].ty, "Option<i32>");
        }
        CommandModule::Group { .. } => panic!("expected a leaf"),
    }
}

#[test]
fn docs_carry_over_to_module_and_variant() {
    let s = sig("command_two", &[("name", "String")], &["Example: greets by name"]);
    let m = command(s, ()).unwrap();
    let g = compose("cli".to_string(), vec![m], vec!["the root".to_string()]).unwrap();
    match g {
        CommandModule::Group { docs, variants, .. } => {
            assert_eq!(docs, vec!["the root".to_string()]);
            assert_eq!(variants[0].docs, vec!["Example: greets by name".to_string()]);
        }
        CommandModule::Leaf { .. } => panic!("expected a group"),
    }
}

#[test]
fn invalid_parameter_binding_is_rejected() {
    let s = sig("my_func", &[("a", "i32"), ("(b, c)", "(i32, i32)")], &[]);
    match command(s, ()) {
        Err(BuildError::InvalidArgument(e)) => {
            assert_eq!(e.0, "Invalid cli argument: (b, c): (i32, i32)");
        }
        _ => panic!("expected an invalid-argument error"),
    }
}

#[test]
fn invalid_signature_is_rejected() {
    let s = sig("1my_func", &[], &[]);
    match command(s, ()) {
        Err(BuildError::InvalidSignature(e)) => {
            assert_eq!(e.message, "Failed to parse function");
            assert_eq!(e.err, "1my_func");
        }
        _ => panic!("expected an invalid-signature error"),
    }
}

#[test]
fn duplicate_labels_are_rejected() {
    let a = command(sig("foo_bar", &[], &[]), ()).unwrap();
    let b = command(sig("fooBar", &[], &[]), ()).unwrap();
    match compose("cli".to_string(), vec![a, b], vec![]) {
        Err(ComposeError::DuplicateVariant { label }) => assert_eq!(label, "FooBar"),
        _ => panic!("expected a duplicate-variant error"),
    }
}

#[test]
fn distinct_labels_compose() {
    let a = command(sig("foo_bar", &[], &[]), ()).unwrap();
    let b = command(sig("foo_baz", &[], &[]), ()).unwrap();
    assert!(compose("cli".to_string(), vec![a, b], vec![]).is_ok());
}

#[test]
fn empty_child_list_is_rejected() {
    let r: Result<CommandModule<()>, ComposeError> =
        subcommands("cli, []", vec![], vec![]);
    assert!(matches!(r, Err(ComposeError::InvalidIdentifierList(_))));
}

#[test]
fn malformed_compose_input_is_rejected() {
    let m = command(sig("command_one", &[], &[]), ()).unwrap();
    let r = subcommands("cli [command_one]", vec![m], vec![]);
    match r {
        Err(ComposeError::InvalidIdentifierList(e)) => {
            assert_eq!(e.message, "subcommands only accepts lists of identifiers");
        }
        _ => panic!("expected an invalid-identifier-list error"),
    }
}

#[test]
fn unresolved_reference_is_rejected() {
    let m = command(sig("command_one", &[], &[]), ()).unwrap();
    let r = subcommands("cli, [command_one, command_two]", vec![m], vec![]);
    assert!(matches!(r, Err(ComposeError::InvalidIdentifierList(_))));
}

#[test]
fn invalid_group_identifier_is_rejected() {
    let m = command(sig("command_one", &[], &[]), ()).unwrap();
    let r = compose("not a name".to_string(), vec![m], vec![]);
    assert!(matches!(r, Err(ComposeError::InvalidIdentifier(_))));
}

#[test]
fn trailing_comma_and_whitespace_parse() {
    let m1 = command(sig("command_one", &[], &[]), ()).unwrap();
    let m2 = command(sig("command_two", &[], &[]), ()).unwrap();
    let r = subcommands("  cli ,\n [ command_one , command_two , ] ", vec![m1, m2], vec![]);
    assert!(r.is_ok());
}

#[test]
fn command_one_applies_its_own_default() {
    assert_eq!(command_one(3, None), 3);
    assert_eq!(command_one(3, Some(4)), 7);
}

#[test]
fn leaf_run_forwards_values() {
    let m =
        command(sig("command_one", &[("a", "i32"), ("b", "Option<i32>")], &[]), ExampleOp::CommandOne)
            .unwrap();
    let absent = Invocation::Leaf(vec![ArgValue::Int(3), ArgValue::Absent]);
    assert_eq!(run(&m, &absent), Some("3".to_string()));
    let both = Invocation::Leaf(vec![ArgValue::Int(3), ArgValue::Int(4)]);
    assert_eq!(run(&m, &both), Some("7".to_string()));
}

#[test]
fn leaf_run_with_no_args() {
    let m = command(sig("command_four", &[], &[]), ExampleOp::CommandFour).unwrap();
    assert_eq!(run(&m, &Invocation::Leaf(vec![])), Some("command four".to_string()));
}

#[test]
fn leaf_run_rejects_mismatched_values() {
    let m =
        command(sig("command_one", &[("a", "i32"), ("b", "Option<i32>")], &[]), ExampleOp::CommandOne)
            .unwrap();
    assert_eq!(run(&m, &Invocation::Leaf(vec![ArgValue::Int(3)])), None);
    assert_eq!(
        run(&m, &Invocation::Leaf(vec![ArgValue::Int(i32::MAX), ArgValue::Int(1)])),
        None
    );
}

#[test]
fn group_routes_to_selected_leaf() {
    let m2 = command(sig("command_two", &[("name", "String")], &[]), ExampleOp::CommandTwo).unwrap();
    let m3 =
        command(sig("command_three", &[("a", "i32"), ("b", "i32")], &[]), ExampleOp::CommandThree)
            .unwrap();
    let m4 = command(sig("command_four", &[], &[]), ExampleOp::CommandFour).unwrap();
    let g = subcommands(
        "my_subcommands, [command_two, command_three, command_four]",
        vec![m2, m3, m4],
        vec![],
    )
    .unwrap();
    let inv = Invocation::Select(
        "CommandThree".to_string(),
        Box::new(Invocation::Leaf(vec![ArgValue::Int(7), ArgValue::Int(3)])),
    );
    assert_eq!(run(&g, &inv), Some("the difference is 4".to_string()));
    let unknown = Invocation::Select(
        "CommandFive".to_string(),
        Box::new(Invocation::Leaf(vec![])),
    );
    assert_eq!(run(&g, &unknown), None);
}

#[test]
fn nested_groups_route_to_inner_leaf() {
    let m1 =
        command(sig("command_one", &[("a", "i32"), ("b", "Option<i32>")], &[]), ExampleOp::CommandOne)
            .unwrap();
    let m2 = command(sig("command_two", &[("name", "String")], &[]), ExampleOp::CommandTwo).unwrap();
    let m3 =
        command(sig("command_three", &[("a", "i32"), ("b", "i32")], &[]), ExampleOp::CommandThree)
            .unwrap();
    let m4 = command(sig("command_four", &[], &[]), ExampleOp::CommandFour).unwrap();
    let inner = subcommands(
        "my_subcommands, [command_two, command_three, command_four]",
        vec![m2, m3, m4],
        vec![],
    )
    .unwrap();
    let root = subcommands("cli, [command_one, my_subcommands]", vec![m1, inner], vec![]).unwrap();
    let inv = Invocation::Select(
        "MySubcommands".to_string(),
        Box::new(Invocation::Select(
            "CommandTwo".to_string(),
            Box::new(Invocation::Leaf(vec![ArgValue::Str("Bob".to_string())])),
        )),
    );
    assert_eq!(run(&root, &inv), Some("hello Bob".to_string()));
}

#[test]
fn negative_differences_render_with_sign() {
    assert_eq!(command_three(3, 7), "the difference is -4");
    assert_eq!(command_two("Bob".to_string()), "hello Bob");
}

#[test]
fn integer_rendering_covers_the_edges() {
    assert_eq!(int_text(0), "0");
    assert_eq!(int_text(42), "42");
    assert_eq!(int_text(-1), "-1");
    assert_eq!(int_text(i32::MAX), "2147483647");
    assert_eq!(int_text(i32::MIN), "-2147483648");
}
