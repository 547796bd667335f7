use axum_health::diagnostic::{
    AttrPart, CheckAttrName, Fault, MethodFault, MethodPart, Problem, Site,
};
use axum_health::expand::{
    expand_health_check, is_check_attr, is_check_type, is_health_check_result, take_check_attrs,
    validate_method,
};
use axum_health::syntax::{
    Attr, GenericArgument, Head, ImplBlock, ImplItem, Input, Method, PathArguments, Segment, Shape,
    Token, Ty,
};
use axum_health::{
    health_response, Action, Answer, Check, CheckError, Health, HealthBuilder, HealthCheck,
    HealthResponse, Kind, ProvidedCheck, Provider, Router,
};
use serde_json::Value;

fn word(name: &str) -> Attr {
    Attr {
        ident: Some(name.to_string()),
        inner: false,
        shape: Shape::Word,
    }
}

fn list(name: &str, tokens: Vec<Token>) -> Attr {
    Attr {
        ident: Some(name.to_string()),
        inner: false,
        shape: Shape::List(tokens),
    }
}

fn ident(name: &str) -> Token {
    Token::Ident(name.to_string())
}

fn punct(ch: char) -> Token {
    Token::Punct { ch, joint: false }
}

fn text(value: &str) -> Token {
    Token::Text(value.to_string())
}

/// `#[attribute(name = "...")]`
fn named(attribute: &str, name: &str) -> Attr {
    list(attribute, vec![ident("name"), punct('='), text(name)])
}

fn path(idents: &[&str], arguments: PathArguments) -> Ty {
    let mut segments: Vec<Segment> = idents
        .iter()
        .map(|ident| Segment {
            ident: ident.to_string(),
            arguments: PathArguments::Absent,
        })
        .collect();
    if let Some(last) = segments.last_mut() {
        last.arguments = arguments;
    }
    Ty::Path(segments)
}

fn plain(idents: &[&str]) -> Ty {
    path(idents, PathArguments::Absent)
}

/// `Result<Check>`
fn result_of_check() -> Ty {
    path(
        &["Result"],
        PathArguments::AngleBracketed(vec![GenericArgument::Type(plain(&["Check"]))]),
    )
}

const SHARED_SELF: Input = Input::Receiver {
    reference: true,
    mutable: false,
};

/// `async fn ident(&self) -> Result<Check>` with the given attributes.
fn method(ident: &str, attrs: Vec<Attr>) -> Method {
    Method {
        ident: ident.to_string(),
        attrs,
        is_async: true,
        has_generics: false,
        inputs: vec![SHARED_SELF],
        output: Some(result_of_check()),
    }
}

fn block(methods: Vec<Method>) -> ImplBlock<&'static str> {
    ImplBlock {
        head: Head {
            generics: "<B>",
            self_ty: "GenericHealth<B>",
            where_clause: "where B: BackendProbe + Send + Sync + 'static",
        },
        is_trait_impl: false,
        items: methods.into_iter().map(ImplItem::Method).collect(),
    }
}

fn errors(block: &ImplBlock<&str>) -> Vec<(Site, String)> {
    expand_health_check(block)
        .errors
        .into_iter()
        .map(|fault| (fault.site, fault.problem.message()))
        .collect()
}

fn only_error(method: Method) -> (MethodPart, String) {
    let errors = errors(&block(vec![method]));
    assert_eq!(errors.len(), 1);
    match &errors[0] {
        (Site::Method(0, part), message) => (*part, message.clone()),
        other => panic!("unexpected error {other:?}"),
    }
}

type Outcome = Result<Check, CheckError>;
type Probe = Box<dyn Fn() -> Outcome + Send + Sync>;

fn status(up: bool) -> Check {
    if up {
        Check::up()
    } else {
        Check::down()
    }
}

/// The provider that a block with one annotated method generates.
fn provide(block: &ImplBlock<&str>, probe: fn(bool) -> Outcome, available: bool) -> Provider<Probe> {
    let expansion = expand_health_check(block);
    assert_eq!(expansion.errors, vec![]);
    let checks: Vec<ProvidedCheck<Probe>> = expansion
        .registrations
        .into_iter()
        .map(|registration| {
            let check: Probe = Box::new(move || probe(available));
            ProvidedCheck {
                kind: registration.kind,
                name: registration.name,
                check,
            }
        })
        .collect();
    assert!(checks.iter().all(|check| !check.name.is_empty()));
    Provider::new(checks)
}

struct RestHealth {
    available: bool,
}

impl HealthCheck<Probe> for RestHealth {
    fn register(self, builder: HealthBuilder<Probe>) -> HealthBuilder<Probe> {
        let block = block(vec![method("live", vec![named("liveness", "rest-api")])]);
        let probe = |up| Ok(status(up).with_data("backend", serde_json::to_value("rest")));
        provide(&block, probe, self.available).register(builder)
    }
}

struct DatabaseHealth {
    connected: bool,
}

impl HealthCheck<Probe> for DatabaseHealth {
    fn register(self, builder: HealthBuilder<Probe>) -> HealthBuilder<Probe> {
        let block = block(vec![method("ready", vec![named("readiness", "database")])]);
        let probe = |up| Ok(status(up).with_data("backend", serde_json::to_value("database")));
        provide(&block, probe, self.connected).register(builder)
    }
}

struct LdapHealth {
    reachable: bool,
}

impl HealthCheck<Probe> for LdapHealth {
    fn register(self, builder: HealthBuilder<Probe>) -> HealthBuilder<Probe> {
        let attr = list(
            "health",
            vec![
                ident("liveness"),
                punct(','),
                ident("readiness"),
                punct(','),
                ident("name"),
                punct('='),
                text("ldap-directory"),
            ],
        );
        let block = block(vec![method("bind_probe", vec![attr])]);
        let probe = |up| Ok(status(up).with_data("backend", serde_json::to_value("ldap")));
        provide(&block, probe, self.reachable).register(builder)
    }
}

fn request(router: &Router<Probe>, path: &str) -> HealthResponse {
    let endpoint = router
        .endpoints
        .iter()
        .find(|endpoint| endpoint.path == path)
        .expect("health route should respond");
    let mut run = router.health.run(endpoint.kind);
    let mut action = run.begin_round();
    loop {
        action = match action {
            Action::Start(_) => run.check_started(),
            Action::Poll(place) => {
                let outcome = (run.check(place))();
                run.answer(Answer::Ready(outcome))
            }
            other => {
                assert_eq!(other, Action::Done);
                return health_response(run.finish());
            }
        };
    }
}

fn body(text: &str) -> Value {
    serde_json::from_str(text).expect("response body should be JSON")
}

#[test]
fn macro_generates_composable_backend_health_check() {
    let health = Health::builder()
        .include_provider(RestHealth { available: true })
        .include_provider(DatabaseHealth { connected: false })
        .include_provider(LdapHealth { reachable: true })
        .build();

    let ready = request(&health.clone().router(), "/health/ready");
    assert_eq!(ready.code, 503);
    assert_eq!(
        ready.body,
        body(
            r#"{
                "status": "DOWN",
                "checks": [
                    {
                        "name": "database",
                        "status": "DOWN",
                        "data": {
                            "backend": "database"
                        }
                    },
                    {
                        "name": "ldap-directory",
                        "status": "UP",
                        "data": {
                            "backend": "ldap"
                        }
                    }
                ]
            }"#
        )
    );

    let live = request(&health.router(), "/health/live");
    assert_eq!(live.code, 200);
    assert_eq!(
        live.body,
        body(
            r#"{
                "status": "UP",
                "checks": [
                    {
                        "name": "rest-api",
                        "status": "UP",
                        "data": {
                            "backend": "rest"
                        }
                    },
                    {
                        "name": "ldap-directory",
                        "status": "UP",
                        "data": {
                            "backend": "ldap"
                        }
                    }
                ]
            }"#
        )
    );
}

#[test]
fn macro_supports_generic_backend_wrappers() {
    let block = block(vec![method("backend", vec![word("startup")])]);
    let health = provide(&block, |up| Ok(status(up)), true).into_health();

    let response = request(&health.router(), "/health/started");
    assert_eq!(response.code, 200);
    assert_eq!(
        response.body,
        body(
            r#"{
                "status": "UP",
                "checks": [
                    {
                        "name": "backend",
                        "status": "UP"
                    }
                ]
            }"#
        )
    );
}

#[test]
fn what_is_generated_stands_under_the_head_of_the_block() {
    let sound = block(vec![method("backend", vec![word("startup")])]);
    let at_fault = block(vec![method("backend", vec![])]);
    assert_eq!(expand_health_check(&at_fault).errors.len(), 1);
    for block in [&sound, &at_fault] {
        let expansion = expand_health_check(block);
        for head in [expansion.provider, expansion.conversion] {
            assert_eq!(head.generics, "<B>");
            assert_eq!(head.self_ty, "GenericHealth<B>");
            assert_eq!(head.where_clause, "where B: BackendProbe + Send + Sync + 'static");
        }
    }
}

#[test]
fn converting_a_provider_is_building_with_it() {
    let provider = || {
        let check = |kind, name: &str, check| ProvidedCheck {
            kind,
            name: name.to_string(),
            check,
        };
        Provider::new(vec![
            check(Kind::Startup, "first", 1u8),
            check(Kind::Liveness, "second", 2),
        ])
    };
    let entries = |health: Health<u8>| -> Vec<(Kind, String, u8)> {
        health
            .select(None)
            .into_iter()
            .map(|registered| (registered.kind, registered.name, *registered.check))
            .collect()
    };
    let converted = entries(provider().into_health());
    let built = entries(Health::builder().include_provider(provider()).build());
    assert_eq!(converted, built);
    assert_eq!(
        converted,
        vec![
            (Kind::Startup, "first".to_string(), 1),
            (Kind::Liveness, "second".to_string(), 2),
        ]
    );
}

#[test]
fn health_check_compile_errors() {
    // #[health(liveness, readiness, liveness)]
    let duplicate_kind = list(
        "health",
        vec![
            ident("liveness"),
            punct(','),
            ident("readiness"),
            punct(','),
            ident("liveness"),
        ],
    );
    assert_eq!(
        only_error(method("probe", vec![duplicate_kind])),
        (
            MethodPart::Attr(0, AttrPart::Span(4, 4)),
            "duplicate health check kind".to_string()
        )
    );

    // #[readiness(name = "database", name = "db")]
    let duplicate_name = list(
        "readiness",
        vec![
            ident("name"),
            punct('='),
            text("database"),
            punct(','),
            ident("name"),
            punct('='),
            text("db"),
        ],
    );
    assert_eq!(
        only_error(method("ready", vec![duplicate_name])),
        (
            MethodPart::Attr(0, AttrPart::Span(4, 4)),
            "duplicate `name` argument".to_string()
        )
    );

    // #[startup(name = "")]
    assert_eq!(
        only_error(method("started", vec![named("startup", "")])),
        (
            MethodPart::Attr(0, AttrPart::At(2)),
            "health check names must not be empty".to_string()
        )
    );

    // async fn ready(&self, timeout_ms: u64) -> Result<Check>
    let mut method_args = method("ready", vec![word("readiness")]);
    method_args.inputs.push(Input::Typed);
    assert_eq!(
        only_error(method_args),
        (
            MethodPart::Input(1),
            "health check methods must not take arguments other than &self".to_string()
        )
    );

    // async fn started(&mut self) -> Result<Check>
    let mut mut_self = method("started", vec![word("startup")]);
    mut_self.inputs = vec![Input::Receiver {
        reference: true,
        mutable: true,
    }];
    assert_eq!(
        only_error(mut_self),
        (
            MethodPart::Input(0),
            "health check methods must take &self as the first parameter".to_string()
        )
    );

    // #[health]
    assert_eq!(
        only_error(method("probe", vec![word("health")])),
        (
            MethodPart::Attr(0, AttrPart::Path),
            "expected attribute arguments in parentheses: #[health(...)]".to_string()
        )
    );

    // async fn ready(&self)
    let mut no_return = method("ready", vec![word("readiness")]);
    no_return.output = None;
    assert_eq!(
        only_error(no_return),
        (
            MethodPart::Output,
            "health check methods must return axum_health::Result<axum_health::Check>".to_string()
        )
    );

    // fn live(&self) -> Result<Check>
    let mut non_async = method("live", vec![word("liveness")]);
    non_async.is_async = false;
    assert_eq!(
        only_error(non_async),
        (
            MethodPart::Ident,
            "health check methods must be async".to_string()
        )
    );

    // impl Probe for TraitImpl
    let mut trait_impl = block(vec![method("live", vec![word("liveness")])]);
    trait_impl.is_trait_impl = true;
    assert_eq!(
        errors(&trait_impl),
        vec![(
            Site::SelfType,
            "#[health_check] must be used on an inherent impl block".to_string()
        )]
    );

    // async fn live(&self) -> Check
    let mut wrong_return = method("live", vec![word("liveness")]);
    wrong_return.output = Some(plain(&["Check"]));
    assert_eq!(
        only_error(wrong_return),
        (
            MethodPart::Output,
            "health check methods must return axum_health::Result<axum_health::Check>".to_string()
        )
    );
}

#[test]
fn a_block_without_annotated_methods_is_refused() {
    let mut plain_block = block(vec![method("helper", vec![word("inline")])]);
    plain_block.items.push(ImplItem::Other);
    assert_eq!(
        errors(&plain_block),
        vec![(
            Site::SelfType,
            "#[health_check] requires at least one annotated health check method".to_string()
        )]
    );
    let mut trait_impl = block(vec![]);
    trait_impl.is_trait_impl = true;
    let problems: Vec<Problem> = expand_health_check(&trait_impl)
        .errors
        .into_iter()
        .map(|fault| fault.problem)
        .collect();
    assert_eq!(problems, vec![Problem::TraitImpl, Problem::NoChecks]);
}

#[test]
fn a_method_at_fault_counts_as_annotated() {
    let mut bad = method("live", vec![word("liveness")]);
    bad.is_async = false;
    let block = block(vec![bad, method("probe", vec![word("health")])]);
    assert_eq!(
        expand_health_check(&block).errors,
        vec![
            Fault {
                site: Site::Method(0, MethodPart::Ident),
                problem: Problem::NotAsync
            },
            Fault {
                site: Site::Method(1, MethodPart::Attr(0, AttrPart::Path)),
                problem: Problem::MissingArguments {
                    name: CheckAttrName::Health,
                    inner: false
                }
            },
        ]
    );
    assert_eq!(expand_health_check(&block).registrations.len(), 0);
}

#[test]
fn methods_without_check_attributes_are_not_validated() {
    let mut helper = method("helper", vec![word("inline")]);
    helper.is_async = false;
    helper.inputs = vec![];
    let block = block(vec![helper, method("live", vec![word("liveness")])]);
    let expansion = expand_health_check(&block);
    assert_eq!(expansion.errors, vec![]);
    assert_eq!(expansion.registrations.len(), 1);
    assert_eq!(expansion.registrations[0].method, 1);
}

#[test]
fn checks_are_registered_in_source_order_under_their_names() {
    let both = method(
        "probe",
        vec![
            word("readiness"),
            list(
                "health",
                vec![
                    ident("startup"),
                    punct(','),
                    ident("liveness"),
                    punct(','),
                    ident("name"),
                    punct('='),
                    text("shared"),
                    punct(','),
                ],
            ),
        ],
    );
    let mut all = block(vec![both]);
    all.items.insert(0, ImplItem::Other);
    all.items.push(ImplItem::Method(method(
        "live",
        vec![named("liveness", "process")],
    )));
    let expansion = expand_health_check(&all);
    assert_eq!(expansion.errors, vec![]);
    let registered: Vec<(Kind, &str, usize)> = expansion
        .registrations
        .iter()
        .map(|r| (r.kind, r.name.as_str(), r.method))
        .collect();
    assert_eq!(
        registered,
        vec![
            (Kind::Readiness, "probe", 1),
            (Kind::Startup, "shared", 1),
            (Kind::Liveness, "shared", 1),
            (Kind::Liveness, "process", 2),
        ]
    );
}

#[test]
fn other_attributes_are_kept() {
    let attrs = vec![
        word("inline"),
        word("liveness"),
        Attr {
            ident: None,
            inner: false,
            shape: Shape::Word,
        },
        named("startup", "boot"),
        Attr {
            ident: Some("doc".to_string()),
            inner: false,
            shape: Shape::Assigned,
        },
    ];
    assert!(!is_check_attr(&attrs[0]));
    assert!(is_check_attr(&attrs[1]));
    assert!(!is_check_attr(&attrs[2]));
    let taken = take_check_attrs(&attrs);
    assert_eq!(taken.retained, vec![0, 2, 4]);
    let checks = taken.checks.expect("the attributes should be read");
    assert_eq!(checks.len(), 2);
    assert_eq!(checks[0].kind, Kind::Liveness);
    assert_eq!(checks[0].name, None);
    assert_eq!(checks[1].kind, Kind::Startup);
    assert_eq!(checks[1].name, Some("boot".to_string()));
}

#[test]
fn no_attribute_is_kept_where_a_check_attribute_is_at_fault() {
    let attrs = vec![word("inline"), word("health"), named("startup", "")];
    let taken = take_check_attrs(&attrs);
    assert_eq!(taken.retained, Vec::<usize>::new());
    assert_eq!(
        taken.checks.expect_err("the attribute should be refused"),
        MethodFault {
            part: MethodPart::Attr(1, AttrPart::Path),
            problem: Problem::MissingArguments {
                name: CheckAttrName::Health,
                inner: false
            }
        }
    );
    let block = block(vec![method("live", attrs)]);
    assert_eq!(expand_health_check(&block).retained, vec![Vec::<usize>::new()]);
}

#[test]
fn the_first_fault_of_a_method_is_reported() {
    let fault = |part, problem| Err(MethodFault { part, problem });
    let mut m = method("probe", vec![]);
    assert_eq!(validate_method(&m), Ok(()));
    m.output = None;
    assert_eq!(validate_method(&m), fault(MethodPart::Output, Problem::WrongReturn));
    m.inputs.push(Input::Typed);
    assert_eq!(validate_method(&m), fault(MethodPart::Input(1), Problem::ExtraArgument));
    m.inputs = vec![Input::Typed, SHARED_SELF];
    assert_eq!(validate_method(&m), fault(MethodPart::Input(0), Problem::NotSharedSelf));
    m.inputs = vec![Input::Receiver {
        reference: false,
        mutable: false,
    }];
    assert_eq!(validate_method(&m), fault(MethodPart::Input(0), Problem::NotSharedSelf));
    m.inputs = vec![];
    assert_eq!(validate_method(&m), fault(MethodPart::Ident, Problem::NoSelf));
    m.has_generics = true;
    assert_eq!(validate_method(&m), fault(MethodPart::Generics, Problem::GenericMethod));
    m.is_async = false;
    assert_eq!(validate_method(&m), fault(MethodPart::Ident, Problem::NotAsync));
}

#[test]
fn return_types_are_told_by_their_last_segments() {
    let angle = |arguments| PathArguments::AngleBracketed(arguments);
    let check = || GenericArgument::Type(plain(&["axum_health", "Check"]));
    assert!(is_check_type(&plain(&["axum_health", "Check"])));
    assert!(!is_check_type(&plain(&["Check", "Other"])));
    assert!(!is_check_type(&Ty::Other));
    assert!(is_health_check_result(&path(
        &["axum_health", "Result"],
        angle(vec![check()])
    )));
    let with_error = vec![check(), GenericArgument::Type(plain(&["Error"]))];
    assert!(is_health_check_result(&path(&["Result"], angle(with_error))));
    assert!(!is_health_check_result(&path(&["Outcome"], angle(vec![check()]))));
    assert!(!is_health_check_result(&path(&["Result"], angle(vec![]))));
    assert!(!is_health_check_result(&path(
        &["Result"],
        angle(vec![GenericArgument::Other, check()])
    )));
    assert!(!is_health_check_result(&path(
        &["Result"],
        PathArguments::Parenthesized
    )));
    assert!(!is_health_check_result(&plain(&["Result"])));
    assert!(!is_health_check_result(&Ty::Path(vec![])));
    assert!(!is_health_check_result(&Ty::Other));
}

#[test]
fn every_problem_has_its_message() {
    let health = CheckAttrName::Health;
    let liveness = CheckAttrName::Single(Kind::Liveness);
    let messages = vec![
        (Problem::GenericMethod, "health check methods must not have generic parameters"),
        (Problem::NoSelf, "health check methods must take &self"),
        (
            Problem::NoKind,
            "#[health(...)] requires at least one of `liveness`, `readiness`, or `startup`",
        ),
        (Problem::ExpectedName, "expected `name = \"...\"`"),
        (
            Problem::ExpectedKindOrName,
            "expected `liveness`, `readiness`, `startup`, or `name = \"...\"`",
        ),
        (
            Problem::MissingArguments {
                name: health,
                inner: true,
            },
            "expected attribute arguments in parentheses: #![health(...)]",
        ),
        (
            Problem::ExpectedParentheses {
                name: liveness,
                inner: false,
            },
            "expected parentheses: #[liveness(...)]",
        ),
        (Problem::ExpectedComma, "expected `,`"),
        (Problem::ExpectedEquals, "expected `=`"),
        (Problem::ExpectedString { at_end: false }, "expected string literal"),
        (
            Problem::ExpectedString { at_end: true },
            "unexpected end of input, expected string literal",
        ),
        (Problem::ExpectedIdent { at_end: false }, "expected ident"),
        (
            Problem::ExpectedIdent { at_end: true },
            "unexpected end of input, expected ident",
        ),
        (
            Problem::MissingArgument,
            "unexpected end of input, expected nested attribute",
        ),
        (
            Problem::LiteralArgument,
            "unexpected literal in nested attribute, expected ident",
        ),
        (
            Problem::UnexpectedToken,
            "unexpected token in nested attribute, expected ident",
        ),
    ];
    for (problem, message) in messages {
        assert_eq!(problem.message(), message);
    }
}

#[test]
fn a_provider_registers_its_checks_after_those_of_the_builder() {
    let provider = Provider::new(vec![
        ProvidedCheck {
            kind: Kind::Startup,
            name: "boot".to_string(),
            check: 2u8,
        },
        ProvidedCheck {
            kind: Kind::Liveness,
            name: "live".to_string(),
            check: 3,
        },
    ]);
    let checks = Health::builder()
        .readiness("database", 1u8)
        .include_provider(provider)
        .build()
        .select(None);
    let seen: Vec<(&str, Kind, u8)> = checks
        .iter()
        .map(|check| (check.name.as_str(), check.kind, *check.check))
        .collect();
    assert_eq!(
        seen,
        vec![
            ("database", Kind::Readiness, 1),
            ("boot", Kind::Startup, 2),
            ("live", Kind::Liveness, 3)
        ]
    );
}
