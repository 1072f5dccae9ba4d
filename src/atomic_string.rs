//! An immutable, cheaply cloned string whose reference count is atomic, so that it may be shared
//! across threads.
use std::borrow::Cow;
use std::cmp::Ordering;
use std::sync::Arc;
use vstd::prelude::*;

use crate::string::{
    format_message, hash_str, lemma_bytes_cmp_equal, static_message, static_text_of, str_cmp, str_eq,
    text_cmp,
};
use crate::sync::arc_clone;
use crate::ImplicitClone;

verus! {

/// An immutable string that is cheap to clone and may be shared across threads.
#[derive(Debug)]
pub enum IString {
    /// A static string slice.
    Static(&'static str),
    /// An atomically reference counted string slice.
    Rc(Arc<str>),
}

impl View for IString {
    type V = Seq<char>;

    open spec fn view(&self) -> Seq<char> {
        match self {
            IString::Static(s) => s@,
            IString::Rc(s) => (**s)@,
        }
    }
}

/// Relies on `From<String> for Arc<str>`: the text moves into a new allocation.
#[verifier::external_body]
fn arc_from_string(s: String) -> (r: Arc<str>)
    ensures
        (*r)@ == s@,
{
    Arc::from(s)
}

impl IString {
    /// Extracts a string slice containing the entire string.
    pub fn as_str(&self) -> (r: &str)
        ensures
            r@ == self@,
    {
        match self {
            IString::Static(s) => s,
            IString::Rc(s) => s,
        }
    }

    /// Borrows the text as a [`Cow`], without copying it.
    pub fn as_cow(&self) -> (r: Cow<'_, str>)
        ensures
            r@ == self@,
            r is Borrowed,
    {
        Cow::Borrowed(self.as_str())
    }
}

impl Clone for IString {
    /// A copy of the handle; the text is shared, never copied.
    fn clone(&self) -> (r: Self)
        ensures
            r == *self,
    {
        match self {
            IString::Static(s) => IString::Static(*s),
            IString::Rc(s) => IString::Rc(arc_clone(s)),
        }
    }
}

impl ImplicitClone for IString {
    fn implicit_clone(&self) -> (r: Self) {
        self.clone()
    }
}

impl Default for IString {
    fn default() -> (r: Self)
        ensures
            r@ == Seq::<char>::empty(),
            r is Static,
    {
        proof {
            reveal_strlit("");
        }
        IString::Static("")
    }
}

impl From<&'static str> for IString {
    fn from(s: &'static str) -> (r: IString)
        ensures
            r == IString::Static(s),
    {
        IString::Static(s)
    }
}

impl vstd::std_specs::convert::FromSpecImpl<&'static str> for IString {
    open spec fn obeys_from_spec() -> bool {
        true
    }

    open spec fn from_spec(s: &'static str) -> IString {
        IString::Static(s)
    }
}

impl From<String> for IString {
    fn from(s: String) -> (r: IString)
        ensures
            r@ == s@,
            r is Rc,
    {
        IString::Rc(arc_from_string(s))
    }
}

impl vstd::std_specs::convert::FromSpecImpl<String> for IString {
    /// The new reference counted text is not a value that a specification can name, so
    /// `from` states its result itself.
    open spec fn obeys_from_spec() -> bool {
        false
    }

    open spec fn from_spec(s: String) -> IString {
        arbitrary()
    }
}

impl From<Arc<str>> for IString {
    fn from(s: Arc<str>) -> (r: IString)
        ensures
            r == IString::Rc(s),
    {
        IString::Rc(s)
    }
}

impl vstd::std_specs::convert::FromSpecImpl<Arc<str>> for IString {
    open spec fn obeys_from_spec() -> bool {
        true
    }

    open spec fn from_spec(s: Arc<str>) -> IString {
        IString::Rc(s)
    }
}

impl From<Cow<'static, str>> for IString {
    /// Borrowed text stays static; owned text moves into a reference counted string.
    fn from(cow: Cow<'static, str>) -> (r: IString)
        ensures
            r@ == cow@,
            cow is Borrowed ==> r is Static,
            cow is Owned ==> r is Rc,
    {
        match cow {
            Cow::Borrowed(s) => IString::Static(s),
            Cow::Owned(s) => IString::from(s),
        }
    }
}

impl vstd::std_specs::convert::FromSpecImpl<Cow<'static, str>> for IString {
    /// Owned text gets a new reference counted string, not a value that a specification can
    /// name, so `from` states its result itself.
    open spec fn obeys_from_spec() -> bool {
        false
    }

    open spec fn from_spec(cow: Cow<'static, str>) -> IString {
        arbitrary()
    }
}

impl<'a> From<&'a IString> for IString {
    fn from(s: &'a IString) -> (r: IString)
        ensures
            r == *s,
    {
        s.clone()
    }
}

impl<'a> vstd::std_specs::convert::FromSpecImpl<&'a IString> for IString {
    open spec fn obeys_from_spec() -> bool {
        true
    }

    open spec fn from_spec(s: &'a IString) -> IString {
        *s
    }
}

impl<'a> From<std::fmt::Arguments<'a>> for IString {
    /// A message that needs no formatting at run time stays a static string; any other is
    /// formatted into a reference counted string.
    fn from(args: std::fmt::Arguments<'a>) -> (r: IString)
        ensures
            static_text_of(args) matches Some(t) ==> r == IString::Static(t),
            static_text_of(args) is None ==> r is Rc,
    {
        match static_message(&args) {
            Some(s) => IString::Static(s),
            None => IString::from(format_message(&args)),
        }
    }
}

impl<'a> vstd::std_specs::convert::FromSpecImpl<std::fmt::Arguments<'a>> for IString {
    /// The formatted text depends on the arguments' own formatting code, which no specification
    /// here describes.
    open spec fn obeys_from_spec() -> bool {
        false
    }

    open spec fn from_spec(args: std::fmt::Arguments<'a>) -> IString {
        arbitrary()
    }
}

impl std::ops::Deref for IString {
    type Target = str;

    fn deref(&self) -> (r: &str)
        ensures
            r@ == self@,
    {
        self.as_str()
    }
}

impl AsRef<str> for IString {
    fn as_ref(&self) -> (r: &str)
        ensures
            r@ == self@,
    {
        self.as_str()
    }
}

impl std::borrow::Borrow<str> for IString {
    fn borrow(&self) -> (r: &str)
        ensures
            <str as View>::view(r) == self@,
    {
        self.as_str()
    }
}

impl std::hash::Hash for IString {
    /// Hashes the text alone, as `str` does, so that equal strings hash alike whatever their
    /// storage and lookups by `&str` find them.
    fn hash<H: std::hash::Hasher>(&self, state: &mut H) {
        hash_str(self.as_str(), state)
    }
}

impl std::str::FromStr for IString {
    type Err = std::convert::Infallible;

    fn from_str(value: &str) -> (r: Result<IString, std::convert::Infallible>)
        ensures
            r matches Ok(s) && s@ == value@ && s is Rc,
    {
        Ok(IString::from(value.to_owned()))
    }
}

impl PartialEq for IString {
    fn eq(&self, other: &IString) -> (r: bool) {
        str_eq(self.as_str(), other.as_str())
    }
}

impl vstd::std_specs::cmp::PartialEqSpecImpl for IString {
    open spec fn obeys_eq_spec() -> bool {
        true
    }

    open spec fn eq_spec(&self, other: &IString) -> bool {
        self@ == other@
    }
}

impl PartialOrd for IString {
    fn partial_cmp(&self, other: &IString) -> (r: Option<Ordering>) {
        Some(str_cmp(self.as_str(), other.as_str()))
    }
}

impl vstd::std_specs::cmp::PartialOrdSpecImpl for IString {
    open spec fn obeys_partial_cmp_spec() -> bool {
        true
    }

    open spec fn partial_cmp_spec(&self, other: &IString) -> Option<Ordering> {
        Some(text_cmp(self@, other@))
    }
}

impl Eq for IString {
}

impl Ord for IString {
    /// Relies on `Ord for str`, which orders texts byte by byte as `partial_cmp` does.
    #[verifier::external_body]
    fn cmp(&self, other: &IString) -> Ordering {
        Ord::cmp(self.as_str(), other.as_str())
    }
}

impl PartialEq<str> for IString {
    fn eq(&self, other: &str) -> (r: bool) {
        str_eq(self.as_str(), other)
    }
}

impl vstd::std_specs::cmp::PartialEqSpecImpl<str> for IString {
    open spec fn obeys_eq_spec() -> bool {
        true
    }

    open spec fn eq_spec(&self, other: &str) -> bool {
        self@ == other@
    }
}

impl PartialOrd<str> for IString {
    fn partial_cmp(&self, other: &str) -> (r: Option<Ordering>) {
        Some(str_cmp(self.as_str(), other))
    }
}

impl vstd::std_specs::cmp::PartialOrdSpecImpl<str> for IString {
    open spec fn obeys_partial_cmp_spec() -> bool {
        true
    }

    open spec fn partial_cmp_spec(&self, other: &str) -> Option<Ordering> {
        Some(text_cmp(self@, other@))
    }
}

impl PartialEq<IString> for str {
    fn eq(&self, other: &IString) -> (r: bool) {
        str_eq(self, other.as_str())
    }
}

impl vstd::std_specs::cmp::PartialEqSpecImpl<IString> for str {
    open spec fn obeys_eq_spec() -> bool {
        true
    }

    open spec fn eq_spec(&self, other: &IString) -> bool {
        self@ == other@
    }
}

impl PartialOrd<IString> for str {
    fn partial_cmp(&self, other: &IString) -> (r: Option<Ordering>) {
        Some(str_cmp(self, other.as_str()))
    }
}

impl vstd::std_specs::cmp::PartialOrdSpecImpl<IString> for str {
    open spec fn obeys_partial_cmp_spec() -> bool {
        true
    }

    open spec fn partial_cmp_spec(&self, other: &IString) -> Option<Ordering> {
        Some(text_cmp(self@, other@))
    }
}

impl<'a> PartialEq<&'a str> for IString {
    fn eq(&self, other: &&'a str) -> (r: bool) {
        str_eq(self.as_str(), *other)
    }
}

impl<'a> vstd::std_specs::cmp::PartialEqSpecImpl<&'a str> for IString {
    open spec fn obeys_eq_spec() -> bool {
        true
    }

    open spec fn eq_spec(&self, other: &&'a str) -> bool {
        self@ == other@
    }
}

impl<'a> PartialOrd<&'a str> for IString {
    fn partial_cmp(&self, other: &&'a str) -> (r: Option<Ordering>) {
        Some(str_cmp(self.as_str(), *other))
    }
}

impl<'a> vstd::std_specs::cmp::PartialOrdSpecImpl<&'a str> for IString {
    open spec fn obeys_partial_cmp_spec() -> bool {
        true
    }

    open spec fn partial_cmp_spec(&self, other: &&'a str) -> Option<Ordering> {
        Some(text_cmp(self@, other@))
    }
}

impl<'a> PartialEq<IString> for &'a str {
    fn eq(&self, other: &IString) -> (r: bool) {
        str_eq(*self, other.as_str())
    }
}

impl<'a> vstd::std_specs::cmp::PartialEqSpecImpl<IString> for &'a str {
    open spec fn obeys_eq_spec() -> bool {
        true
    }

    open spec fn eq_spec(&self, other: &IString) -> bool {
        self@ == other@
    }
}

impl<'a> PartialOrd<IString> for &'a str {
    fn partial_cmp(&self, other: &IString) -> (r: Option<Ordering>) {
        Some(str_cmp(*self, other.as_str()))
    }
}

impl<'a> vstd::std_specs::cmp::PartialOrdSpecImpl<IString> for &'a str {
    open spec fn obeys_partial_cmp_spec() -> bool {
        true
    }

    open spec fn partial_cmp_spec(&self, other: &IString) -> Option<Ordering> {
        Some(text_cmp(self@, other@))
    }
}

impl PartialEq<String> for IString {
    fn eq(&self, other: &String) -> (r: bool) {
        str_eq(self.as_str(), other.as_str())
    }
}

impl vstd::std_specs::cmp::PartialEqSpecImpl<String> for IString {
    open spec fn obeys_eq_spec() -> bool {
        true
    }

    open spec fn eq_spec(&self, other: &String) -> bool {
        self@ == other@
    }
}

impl PartialOrd<String> for IString {
    fn partial_cmp(&self, other: &String) -> (r: Option<Ordering>) {
        Some(str_cmp(self.as_str(), other.as_str()))
    }
}

impl vstd::std_specs::cmp::PartialOrdSpecImpl<String> for IString {
    open spec fn obeys_partial_cmp_spec() -> bool {
        true
    }

    open spec fn partial_cmp_spec(&self, other: &String) -> Option<Ordering> {
        Some(text_cmp(self@, other@))
    }
}

impl PartialEq<IString> for String {
    fn eq(&self, other: &IString) -> (r: bool) {
        str_eq(self.as_str(), other.as_str())
    }
}

impl vstd::std_specs::cmp::PartialEqSpecImpl<IString> for String {
    open spec fn obeys_eq_spec() -> bool {
        true
    }

    open spec fn eq_spec(&self, other: &IString) -> bool {
        self@ == other@
    }
}

impl PartialOrd<IString> for String {
    fn partial_cmp(&self, other: &IString) -> (r: Option<Ordering>) {
        Some(str_cmp(self.as_str(), other.as_str()))
    }
}

impl vstd::std_specs::cmp::PartialOrdSpecImpl<IString> for String {
    open spec fn obeys_partial_cmp_spec() -> bool {
        true
    }

    open spec fn partial_cmp_spec(&self, other: &IString) -> Option<Ordering> {
        Some(text_cmp(self@, other@))
    }
}

impl<'a> PartialEq<&'a String> for IString {
    fn eq(&self, other: &&'a String) -> (r: bool) {
        str_eq(self.as_str(), other.as_str())
    }
}

impl<'a> vstd::std_specs::cmp::PartialEqSpecImpl<&'a String> for IString {
    open spec fn obeys_eq_spec() -> bool {
        true
    }

    open spec fn eq_spec(&self, other: &&'a String) -> bool {
        self@ == other@
    }
}

impl<'a> PartialOrd<&'a String> for IString {
    fn partial_cmp(&self, other: &&'a String) -> (r: Option<Ordering>) {
        Some(str_cmp(self.as_str(), other.as_str()))
    }
}

impl<'a> vstd::std_specs::cmp::PartialOrdSpecImpl<&'a String> for IString {
    open spec fn obeys_partial_cmp_spec() -> bool {
        true
    }

    open spec fn partial_cmp_spec(&self, other: &&'a String) -> Option<Ordering> {
        Some(text_cmp(self@, other@))
    }
}

impl<'a> PartialEq<IString> for &'a String {
    fn eq(&self, other: &IString) -> (r: bool) {
        str_eq(self.as_str(), other.as_str())
    }
}

impl<'a> vstd::std_specs::cmp::PartialEqSpecImpl<IString> for &'a String {
    open spec fn obeys_eq_spec() -> bool {
        true
    }

    open spec fn eq_spec(&self, other: &IString) -> bool {
        self@ == other@
    }
}

impl<'a> PartialOrd<IString> for &'a String {
    fn partial_cmp(&self, other: &IString) -> (r: Option<Ordering>) {
        Some(str_cmp(self.as_str(), other.as_str()))
    }
}

impl<'a> vstd::std_specs::cmp::PartialOrdSpecImpl<IString> for &'a String {
    open spec fn obeys_partial_cmp_spec() -> bool {
        true
    }

    open spec fn partial_cmp_spec(&self, other: &IString) -> Option<Ordering> {
        Some(text_cmp(self@, other@))
    }
}

/// A clone compares equal to the string it was made from, whatever its storage.
pub proof fn lemma_clone_compares_equal(a: IString, c: IString)
    requires
        call_ensures(<IString as Clone>::clone, (&a,), c),
    ensures
        c@ == a@,
        <IString as vstd::std_specs::cmp::PartialEqSpec>::eq_spec(&c, &a),
{
}

/// Strings holding the same text compare equal, whatever their storage.
pub proof fn lemma_eq_by_content(a: IString, b: IString)
    requires
        a@ == b@,
    ensures
        <IString as vstd::std_specs::cmp::PartialEqSpec>::eq_spec(&a, &b),
        <IString as vstd::std_specs::cmp::PartialOrdSpec>::partial_cmp_spec(&a, &b) == Some(Ordering::Equal),
{
    lemma_bytes_cmp_equal(vstd::utf8::encode_utf8(a@), vstd::utf8::encode_utf8(b@));
}

/// Comparing a string with plain text, with a `String` or with a reference to one, in either
/// order, agrees with comparing it with a string that holds the same text.
pub proof fn lemma_comparisons_agree<'a>(a: IString, b: IString, s: &'a str, t: &'a String)
    requires
        b@ == s@,
        b@ == t@,
    ensures
        <IString as vstd::std_specs::cmp::PartialEqSpec<str>>::eq_spec(&a, s) == <IString as vstd::std_specs::cmp::PartialEqSpec>::eq_spec(&a, &b),
        <str as vstd::std_specs::cmp::PartialEqSpec<IString>>::eq_spec(s, &a) == <IString as vstd::std_specs::cmp::PartialEqSpec>::eq_spec(&b, &a),
        <IString as vstd::std_specs::cmp::PartialEqSpec<&'a str>>::eq_spec(&a, &s) == <IString as vstd::std_specs::cmp::PartialEqSpec>::eq_spec(&a, &b),
        <&'a str as vstd::std_specs::cmp::PartialEqSpec<IString>>::eq_spec(&s, &a) == <IString as vstd::std_specs::cmp::PartialEqSpec>::eq_spec(&b, &a),
        <IString as vstd::std_specs::cmp::PartialEqSpec<String>>::eq_spec(&a, t) == <IString as vstd::std_specs::cmp::PartialEqSpec>::eq_spec(&a, &b),
        <String as vstd::std_specs::cmp::PartialEqSpec<IString>>::eq_spec(t, &a) == <IString as vstd::std_specs::cmp::PartialEqSpec>::eq_spec(&b, &a),
        <IString as vstd::std_specs::cmp::PartialEqSpec<&'a String>>::eq_spec(&a, &t) == <IString as vstd::std_specs::cmp::PartialEqSpec>::eq_spec(&a, &b),
        <&'a String as vstd::std_specs::cmp::PartialEqSpec<IString>>::eq_spec(&t, &a) == <IString as vstd::std_specs::cmp::PartialEqSpec>::eq_spec(&b, &a),
        <IString as vstd::std_specs::cmp::PartialOrdSpec<str>>::partial_cmp_spec(&a, s) == <IString as vstd::std_specs::cmp::PartialOrdSpec>::partial_cmp_spec(&a, &b),
        <str as vstd::std_specs::cmp::PartialOrdSpec<IString>>::partial_cmp_spec(s, &a) == <IString as vstd::std_specs::cmp::PartialOrdSpec>::partial_cmp_spec(&b, &a),
        <IString as vstd::std_specs::cmp::PartialOrdSpec<&'a str>>::partial_cmp_spec(&a, &s) == <IString as vstd::std_specs::cmp::PartialOrdSpec>::partial_cmp_spec(&a, &b),
        <&'a str as vstd::std_specs::cmp::PartialOrdSpec<IString>>::partial_cmp_spec(&s, &a) == <IString as vstd::std_specs::cmp::PartialOrdSpec>::partial_cmp_spec(&b, &a),
        <IString as vstd::std_specs::cmp::PartialOrdSpec<String>>::partial_cmp_spec(&a, t) == <IString as vstd::std_specs::cmp::PartialOrdSpec>::partial_cmp_spec(&a, &b),
        <String as vstd::std_specs::cmp::PartialOrdSpec<IString>>::partial_cmp_spec(t, &a) == <IString as vstd::std_specs::cmp::PartialOrdSpec>::partial_cmp_spec(&b, &a),
        <IString as vstd::std_specs::cmp::PartialOrdSpec<&'a String>>::partial_cmp_spec(&a, &t) == <IString as vstd::std_specs::cmp::PartialOrdSpec>::partial_cmp_spec(&a, &b),
        <&'a String as vstd::std_specs::cmp::PartialOrdSpec<IString>>::partial_cmp_spec(&t, &a) == <IString as vstd::std_specs::cmp::PartialOrdSpec>::partial_cmp_spec(&b, &a),
{
}

} // verus!
