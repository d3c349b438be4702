use vstd::prelude::*;
use vstd::string::StringExecFns;
use std::fmt::Debug;
use crate::interfaces::INotification;

verus! {

/// The mathematical value of a [`Notification`].
pub struct NotificationView<B> {
    pub name: Seq<char>,
    pub body: Option<B>,
    pub type_: Option<Seq<char>>,
}

/// The base notification: a name, an optional body and an optional type tag.
pub struct Notification<B> {
    name: String,
    body: Option<B>,
    type_: Option<String>,
}

impl<B> View for Notification<B> {
    type V = NotificationView<B>;

    closed spec fn view(&self) -> NotificationView<B> {
        NotificationView {
            name: self.name@,
            body: self.body,
            type_: match self.type_ {
                Some(t) => Some(t@),
                None => None,
            },
        }
    }
}

/// The text of an optional type tag as a sequence, `None` staying `None`.
pub open spec fn tag_view(type_: Option<&str>) -> Option<Seq<char>> {
    match type_ {
        Some(t) => Some(t@),
        None => None,
    }
}

/// The text that stands for an absent body or type tag.
pub open spec fn absent_text() -> Seq<char> {
    "null"@
}

/// The rendering of a notification whose body reads `body` and whose type
/// tag reads `type_`: three labelled lines.
pub open spec fn rendering(name: Seq<char>, body: Seq<char>, type_: Seq<char>) -> Seq<char> {
    "Notification Name: "@ + name + "\nBody: "@ + body + "\nType: "@ + type_
}

/// The text of a type tag, `absent_text()` where there is none.
pub open spec fn tag_text(type_: Option<Seq<char>>) -> Seq<char> {
    match type_ {
        Some(t) => t,
        None => absent_text(),
    }
}

/// Calls `format!("{:?}", body)`, the `Debug` rendering of the body. What
/// that text is depends on the body type's own `Debug` impl, so nothing is
/// claimed of it.
#[verifier::external_body]
fn debug_text<B: Debug>(body: &B) -> (r: String) {
    format!("{:?}", body)
}

/// Lays out the three labelled lines of a notification's rendering.
pub fn render(name: &str, body: &str, type_: &str) -> (r: String)
    ensures
        r@ == rendering(name@, body@, type_@),
{
    let mut out = String::from_str("Notification Name: ");
    out.append(name);
    out.append("\nBody: ");
    out.append(body);
    out.append("\nType: ");
    out.append(type_);
    out
}

impl<B> Notification<B> {
    /// Builds a notification from its three parts.
    pub fn new(name: &str, body: Option<B>, type_: Option<&str>) -> (r: Self)
        ensures
            r@.name == name@,
            r@.body == body,
            r@.type_ == tag_view(type_),
    {
        let tag = match type_ {
            Some(t) => Some(t.to_owned()),
            None => None,
        };
        Notification { name: name.to_owned(), body, type_: tag }
    }

    /// The name under which observers are looked up.
    pub fn name(&self) -> (r: &str)
        ensures
            r@ == self@.name,
    {
        self.name.as_str()
    }

    /// The payload, if any.
    pub fn body(&self) -> (r: Option<&B>)
        ensures
            r is Some <==> self@.body is Some,
            r matches Some(b) ==> self@.body == Some(*b),
    {
        self.body.as_ref()
    }

    /// The type tag, if any.
    pub fn get_type(&self) -> (r: Option<&str>)
        ensures
            tag_view(r) == self@.type_,
    {
        match &self.type_ {
            Some(t) => Some(t.as_str()),
            None => None,
        }
    }
}

impl<B: Debug> INotification<B> for Notification<B> {
    fn name(&self) -> (r: &str)
        ensures
            r@ == self@.name,
    {
        Notification::name(self)
    }

    fn body(&self) -> (r: Option<&B>)
        ensures
            r is Some <==> self@.body is Some,
            r matches Some(b) ==> self@.body == Some(*b),
    {
        Notification::body(self)
    }

    fn set_body(&mut self, body: Option<B>)
        ensures
            final(self)@ == (NotificationView { body, ..old(self)@ }),
    {
        self.body = body;
    }

    fn get_type(&self) -> (r: Option<&str>)
        ensures
            tag_view(r) == self@.type_,
    {
        Notification::get_type(self)
    }

    fn set_type(&mut self, type_: Option<String>)
        ensures
            final(self)@.name == old(self)@.name,
            final(self)@.body == old(self)@.body,
            final(self)@.type_ == match type_ {
                Some(t) => Some(t@),
                None => None,
            },
    {
        self.type_ = type_;
    }

    fn to_string(&self) -> (r: String)
        ensures
            self@.body is None ==> r@ == rendering(
                self@.name,
                absent_text(),
                tag_text(self@.type_),
            ),
            exists|body: Seq<char>| r@ == rendering(self@.name, body, tag_text(self@.type_)),
    {
        let body = match &self.body {
            Some(b) => debug_text(b),
            None => String::from_str("null"),
        };
        let tag = match &self.type_ {
            Some(t) => t.as_str(),
            None => "null",
        };
        let r = render(self.name.as_str(), body.as_str(), tag);
        assert(r@ == rendering(self@.name, body@, tag_text(self@.type_)));
        r
    }
}

} // verus!
