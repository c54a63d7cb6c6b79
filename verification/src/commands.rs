//! The example commands: four small operations and the wrapped-operation
//! value that lets them stand as leaves of a command tree.
use crate::numtext::{int_text, spec_int_text};
use crate::tree::{ArgValue, CliOp, OutValue};
use vstd::prelude::*;

verus! {

/// The optional addend's contribution: the value when present, zero when
/// absent.
pub open spec fn spec_or_zero(b: Option<i32>) -> int {
    match b {
        Some(x) => x as int,
        None => 0,
    }
}

/// Adds `a` and the optional `b`, absence meaning zero.
pub fn command_one(a: i32, b: Option<i32>) -> (r: i32)
    requires
        i32::MIN <= a + spec_or_zero(b) <= i32::MAX,
    ensures
        r as int == a + spec_or_zero(b),
{
    a + b.unwrap_or(0)
}

/// Greets by name.
pub fn command_two(name: String) -> (r: String)
    ensures
        r@ == "hello "@ + name@,
{
    let mut r = String::new();
    r.append("hello ");
    r.append(name.as_str());
    r
}

/// Reports the difference of `a` and `b` as one line of text.
pub fn command_three(a: i32, b: i32) -> (r: String)
    requires
        i32::MIN <= a - b <= i32::MAX,
    ensures
        r@ == "the difference is "@ + spec_int_text(a - b),
{
    let d = a - b;
    let mut r = String::new();
    r.append("the difference is ");
    let t = int_text(d);
    r.append(t.as_str());
    r
}

/// Names itself.
pub fn command_four() -> (r: String)
    ensures
        r@ == "command four"@,
{
    "command four".to_owned()
}

/// One wrapped example operation per example command. Each accepts exactly
/// the argument list its command's signature declares — and answers `None`
/// on any other, or when the arithmetic would leave the machine integers.
pub enum ExampleOp {
    CommandOne,
    CommandTwo,
    CommandThree,
    CommandFour,
}

impl CliOp for ExampleOp {
    open spec fn spec_call(&self, args: Seq<ArgValue>) -> Option<Seq<char>> {
        match self {
            ExampleOp::CommandOne => if args.len() == 2 {
                match args[0] {
                    ArgValue::Int(a) => match args[1] {
                        ArgValue::Int(b) => if i32::MIN <= a + b <= i32::MAX {
                            Some(spec_int_text(a + b))
                        } else {
                            None
                        },
                        ArgValue::Absent => Some(spec_int_text(a as int)),
                        _ => None,
                    },
                    _ => None,
                }
            } else {
                None
            },
            ExampleOp::CommandTwo => if args.len() == 1 {
                match args[0] {
                    ArgValue::Str(name) => Some("hello "@ + name@),
                    _ => None,
                }
            } else {
                None
            },
            ExampleOp::CommandThree => if args.len() == 2 {
                match args[0] {
                    ArgValue::Int(a) => match args[1] {
                        ArgValue::Int(b) => if i32::MIN <= a - b <= i32::MAX {
                            Some("the difference is "@ + spec_int_text(a - b))
                        } else {
                            None
                        },
                        _ => None,
                    },
                    _ => None,
                }
            } else {
                None
            },
            ExampleOp::CommandFour => if args.len() == 0 {
                Some("command four"@)
            } else {
                None
            },
        }
    }

    fn call(&self, args: &Vec<ArgValue>) -> (r: Option<OutValue>) {
        match self {
            ExampleOp::CommandOne => {
                if args.len() != 2 {
                    return None;
                }
                match &args[0] {
                    ArgValue::Int(a) => match &args[1] {
                        ArgValue::Int(b) => match a.checked_add(*b) {
                            Some(_) => Some(OutValue::Int(command_one(*a, Some(*b)))),
                            None => None,
                        },
                        ArgValue::Absent => Some(OutValue::Int(command_one(*a, None))),
                        _ => None,
                    },
                    _ => None,
                }
            },
            ExampleOp::CommandTwo => {
                if args.len() != 1 {
                    return None;
                }
                match &args[0] {
                    ArgValue::Str(name) => Some(OutValue::Str(command_two(name.clone()))),
                    _ => None,
                }
            },
            ExampleOp::CommandThree => {
                if args.len() != 2 {
                    return None;
                }
                match &args[0] {
                    ArgValue::Int(a) => match &args[1] {
                        ArgValue::Int(b) => match a.checked_sub(*b) {
                            Some(_) => Some(OutValue::Str(command_three(*a, *b))),
                            None => None,
                        },
                        _ => None,
                    },
                    _ => None,
                }
            },
            ExampleOp::CommandFour => {
                if args.len() != 0 {
                    return None;
                }
                Some(OutValue::Str(command_four()))
            },
        }
    }
}

} // verus!
