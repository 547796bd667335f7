//! The attribute grammar, held against the attribute parser of `syn`.
use axum_health::arguments::validate_name;
use axum_health::expand::take_check_attrs;
use axum_health::syntax::{Attr, Shape, Token};
use axum_health::Kind;
use proc_macro2::{Delimiter, Spacing, TokenStream, TokenTree};
use syn::parse::Parser;

type Checks = Result<Vec<(Kind, Option<String>)>, String>;

fn push_tokens(stream: TokenStream, tokens: &mut Vec<Token>) {
    for tree in stream {
        match tree {
            TokenTree::Ident(ident) => tokens.push(Token::Ident(ident.to_string())),
            TokenTree::Punct(punct) => tokens.push(Token::Punct {
                ch: punct.as_char(),
                joint: punct.spacing() == Spacing::Joint,
            }),
            TokenTree::Literal(literal) => tokens.push(match syn::Lit::new(literal) {
                syn::Lit::Str(text) => Token::Text(text.value()),
                syn::Lit::Int(_) | syn::Lit::Float(_) => Token::Number,
                _ => Token::Literal,
            }),
            TokenTree::Group(group) => {
                if group.delimiter() == Delimiter::None {
                    push_tokens(group.stream(), tokens);
                } else {
                    tokens.push(Token::Group);
                }
            }
        }
    }
}

fn convert(attr: &syn::Attribute) -> Attr {
    Attr {
        ident: attr.path().get_ident().map(|ident| ident.to_string()),
        inner: matches!(attr.style, syn::AttrStyle::Inner(_)),
        shape: match &attr.meta {
            syn::Meta::Path(_) => Shape::Word,
            syn::Meta::List(list) => {
                let mut tokens = Vec::new();
                push_tokens(list.tokens.clone(), &mut tokens);
                Shape::List(tokens)
            }
            syn::Meta::NameValue(_) => Shape::Assigned,
        },
    }
}

fn parsed_by_library(attr: &syn::Attribute) -> Checks {
    match take_check_attrs(&vec![convert(attr)]).checks {
        Ok(checks) => Ok(checks.into_iter().map(|check| (check.kind, check.name)).collect()),
        Err(fault) => Err(fault.problem.message()),
    }
}

fn parsed_by_syn(attr: &syn::Attribute) -> Checks {
    let single = if attr.path().is_ident("liveness") {
        Some(Kind::Liveness)
    } else if attr.path().is_ident("readiness") {
        Some(Kind::Readiness)
    } else if attr.path().is_ident("startup") {
        Some(Kind::Startup)
    } else {
        None
    };
    if single.is_none() && !attr.path().is_ident("health") {
        return Ok(vec![]);
    }
    if let (Some(kind), syn::Meta::Path(_)) = (single, &attr.meta) {
        return Ok(vec![(kind, None)]);
    }
    let mut kinds: Vec<Kind> = single.into_iter().collect();
    let mut name: Option<String> = None;
    let result = attr.parse_nested_meta(|meta| {
        let kind = if single.is_some() {
            None
        } else if meta.path.is_ident("liveness") {
            Some(Kind::Liveness)
        } else if meta.path.is_ident("readiness") {
            Some(Kind::Readiness)
        } else if meta.path.is_ident("startup") {
            Some(Kind::Startup)
        } else {
            None
        };
        if let Some(kind) = kind {
            if kinds.contains(&kind) {
                return Err(meta.error("duplicate health check kind"));
            }
            kinds.push(kind);
            Ok(())
        } else if meta.path.is_ident("name") {
            if name.is_some() {
                return Err(meta.error("duplicate `name` argument"));
            }
            let value = meta.value()?.parse::<syn::LitStr>()?.value();
            if value.is_empty() {
                return Err(meta.error("health check names must not be empty"));
            }
            name = Some(value);
            Ok(())
        } else if single.is_some() {
            Err(meta.error("expected `name = \"...\"`"))
        } else {
            Err(meta.error("expected `liveness`, `readiness`, `startup`, or `name = \"...\"`"))
        }
    });
    match result {
        Err(error) => Err(error.to_string()),
        Ok(()) if kinds.is_empty() => Err(
            "#[health(...)] requires at least one of `liveness`, `readiness`, or `startup`"
                .to_string(),
        ),
        Ok(()) => Ok(kinds.into_iter().map(|kind| (kind, name.clone())).collect()),
    }
}

/// Reads an attribute both ways and returns what it says.
fn read(attr: &str) -> Checks {
    let attrs = syn::Attribute::parse_outer
        .parse_str(attr)
        .expect("the attribute should be one");
    assert_eq!(attrs.len(), 1);
    let checks = parsed_by_library(&attrs[0]);
    assert_eq!(checks, parsed_by_syn(&attrs[0]), "{attr}");
    checks
}

fn refused(attr: &str) -> String {
    read(attr).expect_err("the attribute should be refused")
}

#[test]
fn attributes_of_a_single_kind() {
    assert_eq!(read("#[liveness]"), Ok(vec![(Kind::Liveness, None)]));
    assert_eq!(read("#[readiness()]"), Ok(vec![(Kind::Readiness, None)]));
    let boot = || Ok(vec![(Kind::Startup, Some("boot".to_string()))]);
    assert_eq!(read("#[startup(name = \"boot\")]"), boot());
    assert_eq!(read("#[startup(name = \"boot\",)]"), boot());
    assert_eq!(read("#[startup[name = r#\"boot\"#]]"), boot());
    assert_eq!(
        read("#[liveness(name = \"a \\\"quoted\\\" name\")]"),
        Ok(vec![(Kind::Liveness, Some("a \"quoted\" name".to_string()))])
    );
}

#[test]
fn attributes_of_several_kinds() {
    assert_eq!(
        read("#[health(liveness, readiness, name = \"ldap-directory\")]"),
        Ok(vec![
            (Kind::Liveness, Some("ldap-directory".to_string())),
            (Kind::Readiness, Some("ldap-directory".to_string())),
        ])
    );
    assert_eq!(
        read("#[health(name = \"x\", startup)]"),
        Ok(vec![(Kind::Startup, Some("x".to_string()))])
    );
    assert_eq!(
        read("#[health(startup, readiness, liveness,)]"),
        Ok(vec![
            (Kind::Startup, None),
            (Kind::Readiness, None),
            (Kind::Liveness, None)
        ])
    );
}

#[test]
fn other_attributes_ask_for_nothing() {
    for attr in [
        "#[inline]",
        "#[doc = \"text\"]",
        "#[axum_health::liveness]",
        "#[r#liveness]",
        "#[::health(liveness)]",
        "#[allow(name)]",
    ] {
        assert_eq!(read(attr), Ok(vec![]));
    }
}

#[test]
fn faults_of_arguments() {
    assert_eq!(
        refused("#[health(liveness, readiness, liveness)]"),
        "duplicate health check kind"
    );
    assert_eq!(
        refused("#[readiness(name = \"database\", name = \"db\")]"),
        "duplicate `name` argument"
    );
    assert_eq!(
        refused("#[health(liveness, name = \"a\", name = \"\")]"),
        "duplicate `name` argument"
    );
    assert_eq!(
        refused("#[startup(name = \"\")]"),
        "health check names must not be empty"
    );
    assert_eq!(
        refused("#[health(name = \"x\")]"),
        "#[health(...)] requires at least one of `liveness`, `readiness`, or `startup`"
    );
    assert_eq!(
        refused("#[health()]"),
        "#[health(...)] requires at least one of `liveness`, `readiness`, or `startup`"
    );
    assert_eq!(refused("#[liveness(readiness)]"), "expected `name = \"...\"`");
    for attr in [
        "#[health(alive)]",
        "#[health(self::liveness)]",
        "#[health(::liveness)]",
        "#[health(::name = \"x\")]",
        "#[health(r#liveness)]",
        "#[health(true)]",
    ] {
        assert_eq!(
            refused(attr),
            "expected `liveness`, `readiness`, `startup`, or `name = \"...\"`"
        );
    }
}

#[test]
fn faults_of_syntax() {
    assert_eq!(
        refused("#[health]"),
        "expected attribute arguments in parentheses: #[health(...)]"
    );
    assert_eq!(
        refused("#[health = \"x\"]"),
        "expected parentheses: #[health(...)]"
    );
    assert_eq!(
        refused("#[liveness = \"x\"]"),
        "expected parentheses: #[liveness(...)]"
    );
    assert_eq!(refused("#[health(liveness readiness)]"), "expected `,`");
    assert_eq!(refused("#[health(liveness = \"x\")]"), "expected `,`");
    assert_eq!(refused("#[health(liveness(startup))]"), "expected `,`");
    assert_eq!(refused("#[startup(name = \"a\" \"b\")]"), "expected `,`");
    assert_eq!(refused("#[startup(name)]"), "expected `=`");
    assert_eq!(refused("#[startup(name, name)]"), "expected `=`");
    assert_eq!(refused("#[startup(name(\"x\"))]"), "expected `=`");
    for value in ["5", "-5", "x", "true", "b\"x\"", "c\"x\"", "'x'", "(\"x\")", "= \"x\""] {
        assert_eq!(
            refused(&format!("#[startup(name = {value})]")),
            "expected string literal"
        );
    }
    assert_eq!(
        refused("#[startup(name = )]"),
        "unexpected end of input, expected string literal"
    );
    for value in ["\"liveness\"", "5", "-5", "-5.5", "'x'", "b\"x\""] {
        assert_eq!(
            refused(&format!("#[health(liveness, {value})]")),
            "unexpected literal in nested attribute, expected ident"
        );
    }
    for value in ["(liveness)", ",", "=", "-", "- x", "-\"x\"", "'static", ": :liveness", ":liveness"] {
        assert_eq!(
            refused(&format!("#[health(liveness, {value})]")),
            "unexpected token in nested attribute, expected ident"
        );
    }
    assert_eq!(
        refused("#[health(::)]"),
        "unexpected end of input, expected nested attribute"
    );
    assert_eq!(refused("#[health(liveness::5)]"), "expected ident");
    assert_eq!(
        refused("#[health(liveness::)]"),
        "unexpected end of input, expected ident"
    );
    assert_eq!(refused("#[health(liveness : :startup)]"), "expected `,`");
}

#[test]
fn an_argument_list_is_read_up_to_its_first_fault() {
    assert_eq!(
        refused("#[health(alive, 5)]"),
        "expected `liveness`, `readiness`, `startup`, or `name = \"...\"`"
    );
    assert_eq!(
        refused("#[health(5, alive)]"),
        "unexpected literal in nested attribute, expected ident"
    );
    assert_eq!(
        refused("#[health(name = \"\", liveness, liveness)]"),
        "health check names must not be empty"
    );
}

#[test]
fn inner_attributes_are_shown_as_such() {
    let attrs = syn::Attribute::parse_inner
        .parse_str("#![health]")
        .expect("the attribute should be one");
    let message = parsed_by_library(&attrs[0]).expect_err("the attribute should be refused");
    assert_eq!(
        message,
        "expected attribute arguments in parentheses: #![health(...)]"
    );
    assert_eq!(Err(message), parsed_by_syn(&attrs[0]));
}

#[test]
fn a_name_must_not_be_empty() {
    assert_eq!(validate_name("x", 3), Ok("x".to_string()));
    let fault = validate_name("", 3).expect_err("an empty name should be refused");
    assert_eq!(fault.problem.message(), "health check names must not be empty");
}
