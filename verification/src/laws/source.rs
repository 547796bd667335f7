//! How the parts of an `impl` block are seen.
use crate::arguments::{check_attr_views, CheckAttr};
use crate::diagnostic::MethodFault;
use crate::expand::{registration_views, taken_view, Registration};
use crate::syntax::{
    attr_views, token_views, Attr, Shape, ShapeView, Token, TokenView,
};
use vstd::prelude::*;

verus! {

/// A token is seen as what it is, with its own text.
pub proof fn law_tokens(token: Token)
    ensures
        match token {
            Token::Ident(name) => token@ == TokenView::Ident(name@),
            Token::Punct { ch, joint } => token@ == (TokenView::Punct { ch, joint }),
            Token::Text(text) => token@ == TokenView::Text(text@),
            Token::Number => token@ == TokenView::Number,
            Token::Literal => token@ == TokenView::Literal,
            Token::Group => token@ == TokenView::Group,
        },
{
}

/// Tokens are seen one by one, in their order.
pub proof fn law_token_lists(tokens: Seq<Token>)
    ensures
        token_views(tokens).len() == tokens.len(),
        forall|i: int| 0 <= i < tokens.len() ==> #[trigger] token_views(tokens)[i] == tokens[i]@,
{
}

/// An attribute is seen with its own name, style and arguments.
pub proof fn law_attributes(attr: Attr)
    ensures
        attr.ident is None <==> attr@.ident is None,
        attr.ident is Some ==> attr@.ident == Some(attr.ident->0@),
        attr@.inner == attr.inner,
        match attr.shape {
            Shape::Word => attr@.shape is Word,
            Shape::Assigned => attr@.shape is Assigned,
            Shape::List(tokens) => attr@.shape == ShapeView::List(token_views(tokens@)),
        },
{
}

/// Attributes are seen one by one, in their order.
pub proof fn law_attribute_lists(attrs: Seq<Attr>)
    ensures
        attr_views(attrs).len() == attrs.len(),
        forall|i: int| 0 <= i < attrs.len() ==> #[trigger] attr_views(attrs)[i] == attrs[i]@,
{
}

/// The checks that attributes ask for are seen one by one, each with its own kind
/// and name, and a fault is seen as it is.
pub proof fn law_checks_asked_for(checks: Vec<CheckAttr>, fault: MethodFault)
    ensures
        taken_view(Ok(checks)) == Ok::<Seq<crate::arguments::CheckAttrView>, MethodFault>(
            check_attr_views(checks@),
        ),
        taken_view(Err(fault)) == Err::<Seq<crate::arguments::CheckAttrView>, MethodFault>(fault),
        check_attr_views(checks@).len() == checks.len(),
        forall|i: int|
            0 <= i < checks.len() ==> {
                let seen = #[trigger] check_attr_views(checks@)[i];
                &&& seen.kind == checks[i].kind
                &&& seen.name is None <==> checks[i].name is None
                &&& checks[i].name is Some ==> seen.name == Some(checks[i].name->0@)
            },
{
}

/// Registrations are seen one by one, each with its own kind, name and method.
pub proof fn law_registrations_seen(registrations: Seq<Registration>)
    ensures
        registration_views(registrations).len() == registrations.len(),
        forall|i: int|
            0 <= i < registrations.len() ==> {
                let seen = #[trigger] registration_views(registrations)[i];
                &&& seen.kind == registrations[i].kind
                &&& seen.name == registrations[i].name@
                &&& seen.method == registrations[i].method
            },
{
}

} // verus!
