//! An immutable, cheaply cloned string.
use std::borrow::Cow;
use std::cmp::Ordering;
use std::rc::Rc;
use vstd::prelude::*;

use crate::array::rc_clone;
use crate::ImplicitClone;

verus! {

/// Orders two byte sequences lexicographically: the first differing byte decides, and a proper
/// prefix comes first.
pub open spec fn bytes_cmp(a: Seq<u8>, b: Seq<u8>) -> Ordering
    decreases a.len(),
{
    if a.len() == 0 {
        if b.len() == 0 {
            Ordering::Equal
        } else {
            Ordering::Less
        }
    } else if b.len() == 0 {
        Ordering::Greater
    } else if a[0] < b[0] {
        Ordering::Less
    } else if a[0] > b[0] {
        Ordering::Greater
    } else {
        bytes_cmp(a.drop_first(), b.drop_first())
    }
}

/// Orders two texts by their UTF-8 encodings, as `str` does.
pub open spec fn text_cmp(a: Seq<char>, b: Seq<char>) -> Ordering {
    bytes_cmp(vstd::utf8::encode_utf8(a), vstd::utf8::encode_utf8(b))
}

/// An immutable string that is cheap to clone.
#[derive(Debug)]
pub enum IString {
    /// A static string slice.
    Static(&'static str),
    /// A reference counted string slice.
    Rc(Rc<str>),
}

impl View for IString {
    type V = Seq<char>;

    open spec fn view(&self) -> Seq<char> {
        match self {
            IString::Static(s) => s@,
            IString::Rc(s) => (**s)@,
        }
    }
}

/// Relies on `From<String> for Rc<str>`: the text moves into a new allocation.
#[verifier::external_body]
fn rc_from_string(s: String) -> (r: Rc<str>)
    ensures
        (*r)@ == s@,
{
    Rc::from(s)
}

/// Compares two texts byte by byte, as `str` does.
pub(crate) fn str_cmp(a: &str, b: &str) -> (r: Ordering)
    ensures
        r == text_cmp(a@, b@),
{
    let x = a.as_bytes();
    let y = b.as_bytes();
    let ghost xs = x@;
    let ghost ys = y@;
    let mut i: usize = 0;
    assert(xs.skip(0) =~= xs);
    assert(ys.skip(0) =~= ys);
    while i < x.len() && i < y.len()
        invariant
            xs == x@,
            ys == y@,
            xs == vstd::utf8::encode_utf8(a@),
            ys == vstd::utf8::encode_utf8(b@),
            i <= xs.len(),
            i <= ys.len(),
            bytes_cmp(xs, ys) == bytes_cmp(xs.skip(i as int), ys.skip(i as int)),
        decreases xs.len() - i,
    {
        if x[i] < y[i] {
            return Ordering::Less;
        }
        if x[i] > y[i] {
            return Ordering::Greater;
        }
        assert(xs.skip(i as int).drop_first() =~= xs.skip(i + 1));
        assert(ys.skip(i as int).drop_first() =~= ys.skip(i + 1));
        i = i + 1;
    }
    if x.len() == y.len() {
        Ordering::Equal
    } else if i == x.len() {
        Ordering::Less
    } else {
        Ordering::Greater
    }
}

/// Compares two texts for equality, byte by byte.
pub(crate) fn str_eq(a: &str, b: &str) -> (r: bool)
    ensures
        r == (a@ == b@),
{
    let o = str_cmp(a, b);
    proof {
        lemma_bytes_cmp_equal(vstd::utf8::encode_utf8(a@), vstd::utf8::encode_utf8(b@));
        vstd::utf8::encode_utf8_decode_utf8(a@);
        vstd::utf8::encode_utf8_decode_utf8(b@);
    }
    match o {
        Ordering::Equal => true,
        _ => false,
    }
}

/// Two byte sequences compare equal exactly when they are the same sequence.
pub proof fn lemma_bytes_cmp_equal(a: Seq<u8>, b: Seq<u8>)
    ensures
        (bytes_cmp(a, b) == Ordering::Equal) <==> (a == b),
    decreases a.len(),
{
    if a.len() > 0 && b.len() > 0 && a[0] == b[0] {
        lemma_bytes_cmp_equal(a.drop_first(), b.drop_first());
        if a.drop_first() == b.drop_first() {
            assert(a =~= b.drop_first().insert(0, b[0]));
            assert(b =~= b.drop_first().insert(0, b[0]));
        }
        if a == b {
            assert(a.drop_first() == b.drop_first());
        }
    } else if a.len() == 0 && b.len() == 0 {
        assert(a =~= b);
    } else if a.len() > 0 && b.len() > 0 {
        assert(a[0] != b[0]);
    }
}

impl IString {
    /// Extracts a string slice containing the entire string.
    pub fn as_str(&self) -> (r: &str)
        ensures
            r@ == self@,
    {
        match self {
            IString::Static(s) => s,
            IString::Rc(s) => s,
        }
    }

    /// Borrows the text as a [`Cow`], without copying it.
    pub fn as_cow(&self) -> (r: Cow<'_, str>)
        ensures
            r@ == self@,
            r is Borrowed,
    {
        Cow::Borrowed(self.as_str())
    }
}

impl Clone for IString {
    /// A copy of the handle; the text is shared, never copied.
    fn clone(&self) -> (r: Self)
        ensures
            r == *self,
    {
        match self {
            IString::Static(s) => IString::Static(*s),
            IString::Rc(s) => IString::Rc(rc_clone(s)),
        }
    }
}

impl ImplicitClone for IString {
    fn implicit_clone(&self) -> (r: Self) {
        self.clone()
    }
}

impl Default for IString {
    fn default() -> (r: Self)
        ensures
            r@ == Seq::<char>::empty(),
            r is Static,
    {
        proof {
            reveal_strlit("");
        }
        IString::Static("")
    }
}

impl From<&'static str> for IString {
    fn from(s: &'static str) -> (r: IString)
        ensures
            r == IString::Static(s),
    {
        IString::Static(s)
    }
}

impl vstd::std_specs::convert::FromSpecImpl<&'static str> for IString {
    open spec fn obeys_from_spec() -> bool {
        true
    }

    open spec fn from_spec(s: &'static str) -> IString {
        IString::Static(s)
    }
}

impl From<String> for IString {
    fn from(s: String) -> (r: IString)
        ensures
            r@ == s@,
            r is Rc,
    {
        IString::Rc(rc_from_string(s))
    }
}

impl vstd::std_specs::convert::FromSpecImpl<String> for IString {
    /// The new reference counted text is not a value that a specification can name, so
    /// `from` states its result itself.
    open spec fn obeys_from_spec() -> bool {
        false
    }

    open spec fn from_spec(s: String) -> IString {
        arbitrary()
    }
}

impl From<Rc<str>> for IString {
    fn from(s: Rc<str>) -> (r: IString)
        ensures
            r == IString::Rc(s),
    {
        IString::Rc(s)
    }
}

impl vstd::std_specs::convert::FromSpecImpl<Rc<str>> for IString {
    open spec fn obeys_from_spec() -> bool {
        true
    }

    open spec fn from_spec(s: Rc<str>) -> IString {
        IString::Rc(s)
    }
}

impl From<Cow<'static, str>> for IString {
    /// Borrowed text stays static; owned text moves into a reference counted string.
    fn from(cow: Cow<'static, str>) -> (r: IString)
        ensures
            r@ == cow@,
            cow is Borrowed ==> r is Static,
            cow is Owned ==> r is Rc,
    {
        match cow {
            Cow::Borrowed(s) => IString::Static(s),
            Cow::Owned(s) => IString::from(s),
        }
    }
}

impl vstd::std_specs::convert::FromSpecImpl<Cow<'static, str>> for IString {
    /// Owned text gets a new reference counted string, not a value that a specification can
    /// name, so `from` states its result itself.
    open spec fn obeys_from_spec() -> bool {
        false
    }

    open spec fn from_spec(cow: Cow<'static, str>) -> IString {
        arbitrary()
    }
}

impl<'a> From<&'a IString> for IString {
    fn from(s: &'a IString) -> (r: IString)
        ensures
            r == *s,
    {
        s.clone()
    }
}

impl<'a> vstd::std_specs::convert::FromSpecImpl<&'a IString> for IString {
    open spec fn obeys_from_spec() -> bool {
        true
    }

    open spec fn from_spec(s: &'a IString) -> IString {
        *s
    }
}

/// A message waiting to be formatted, carried through without being looked into.
#[verifier::external_type_specification]
#[verifier::external_body]
pub struct ExArguments<'a>(std::fmt::Arguments<'a>);

/// What `fmt::Arguments::as_str` gives for a message: its text when formatting it needs no
/// argument at run time.
pub uninterp spec fn static_text_of(args: std::fmt::Arguments<'_>) -> Option<&'static str>;

/// Relies on `fmt::Arguments::as_str`: the message as a static text when formatting it needs no
/// argument at run time; the result depends on the message alone.
#[verifier::external_body]
pub(crate) fn static_message(args: &std::fmt::Arguments<'_>) -> (r: Option<&'static str>)
    ensures
        r == static_text_of(*args),
{
    args.as_str()
}

/// Relies on `ToString for fmt::Arguments`: the formatted message. Nothing is assumed of the
/// text.
#[verifier::external_body]
pub(crate) fn format_message(args: &std::fmt::Arguments<'_>) -> (r: String) {
    args.to_string()
}

impl<'a> From<std::fmt::Arguments<'a>> for IString {
    /// A message that needs no formatting at run time stays a static string; any other is
    /// formatted into a reference counted string.
    fn from(args: std::fmt::Arguments<'a>) -> (r: IString)
        ensures
            static_text_of(args) matches Some(t) ==> r == IString::Static(t),
            static_text_of(args) is None ==> r is Rc,
    {
        match static_message(&args) {
            Some(s) => IString::Static(s),
            None => IString::from(format_message(&args)),
        }
    }
}

impl<'a> vstd::std_specs::convert::FromSpecImpl<std::fmt::Arguments<'a>> for IString {
    /// The formatted text depends on the arguments' own formatting code, which no specification
    /// here describes.
    open spec fn obeys_from_spec() -> bool {
        false
    }

    open spec fn from_spec(args: std::fmt::Arguments<'a>) -> IString {
        arbitrary()
    }
}

impl std::ops::Deref for IString {
    type Target = str;

    fn deref(&self) -> (r: &str)
        ensures
            r@ == self@,
    {
        self.as_str()
    }
}

impl AsRef<str> for IString {
    fn as_ref(&self) -> (r: &str)
        ensures
            r@ == self@,
    {
        self.as_str()
    }
}

impl std::borrow::Borrow<str> for IString {
    fn borrow(&self) -> (r: &str)
        ensures
            <str as View>::view(r) == self@,
    {
        self.as_str()
    }
}

/// Relies on `Hash for str`: feeds the text to the hasher.
#[verifier::external_body]
pub(crate) fn hash_str<H: std::hash::Hasher>(s: &str, state: &mut H) {
    std::hash::Hash::hash(s, state)
}

impl std::hash::Hash for IString {
    /// Hashes the text alone, as `str` does, so that equal strings hash alike whatever their
    /// storage and lookups by `&str` find them.
    fn hash<H: std::hash::Hasher>(&self, state: &mut H) {
        hash_str(self.as_str(), state)
    }
}

impl std::str::FromStr for IString {
    type Err = std::convert::Infallible;

    fn from_str(value: &str) -> (r: Result<IString, std::convert::Infallible>)
        ensures
            r matches Ok(s) && s@ == value@ && s is Rc,
    {
        Ok(IString::from(value.to_owned()))
    }
}

impl PartialEq for IString {
    fn eq(&self, other: &IString) -> (r: bool) {
        str_eq(self.as_str(), other.as_str())
    }
}

impl vstd::std_specs::cmp::PartialEqSpecImpl for IString {
    open spec fn obeys_eq_spec() -> bool {
        true
    }

    open spec fn eq_spec(&self, other: &IString) -> bool {
        self@ == other@
    }
}

impl PartialOrd for IString {
    fn partial_cmp(&self, other: &IString) -> (r: Option<Ordering>) {
        Some(str_cmp(self.as_str(), other.as_str()))
    }
}

impl vstd::std_specs::cmp::PartialOrdSpecImpl for IString {
    open spec fn obeys_partial_cmp_spec() -> bool {
        true
    }

    open spec fn partial_cmp_spec(&self, other: &IString) -> Option<Ordering> {
        Some(text_cmp(self@, other@))
    }
}

impl Eq for IString {
}

impl Ord for IString {
    /// Relies on `Ord for str`, which orders texts byte by byte as `partial_cmp` does.
    #[verifier::external_body]
    fn cmp(&self, other: &IString) -> Ordering {
        Ord::cmp(self.as_str(), other.as_str())
    }
}

impl PartialEq<str> for IString {
    fn eq(&self, other: &str) -> (r: bool) {
        str_eq(self.as_str(), other)
    }
}

impl vstd::std_specs::cmp::PartialEqSpecImpl<str> for IString {
    open spec fn obeys_eq_spec() -> bool {
        true
    }

    open spec fn eq_spec(&self, other: &str) -> bool {
        self@ == other@
    }
}

impl PartialOrd<str> for IString {
    fn partial_cmp(&self, other: &str) -> (r: Option<Ordering>) {
        Some(str_cmp(self.as_str(), other))
    }
}

impl vstd::std_specs::cmp::PartialOrdSpecImpl<str> for IString {
    open spec fn obeys_partial_cmp_spec() -> bool {
        true
    }

    open spec fn partial_cmp_spec(&self, other: &str) -> Option<Ordering> {
        Some(text_cmp(self@, other@))
    }
}

impl PartialEq<IString> for str {
    fn eq(&self, other: &IString) -> (r: bool) {
        str_eq(self, other.as_str())
    }
}

impl vstd::std_specs::cmp::PartialEqSpecImpl<IString> for str {
    open spec fn obeys_eq_spec() -> bool {
        true
    }

    open spec fn eq_spec(&self, other: &IString) -> bool {
        self@ == other@
    }
}

impl PartialOrd<IString> for str {
    fn partial_cmp(&self, other: &IString) -> (r: Option<Ordering>) {
        Some(str_cmp(self, other.as_str()))
    }
}

impl vstd::std_specs::cmp::PartialOrdSpecImpl<IString> for str {
    open spec fn obeys_partial_cmp_spec() -> bool {
        true
    }

    open spec fn partial_cmp_spec(&self, other: &IString) -> Option<Ordering> {
        Some(text_cmp(self@, other@))
    }
}

impl<'a> PartialEq<&'a str> for IString {
    fn eq(&self, other: &&'a str) -> (r: bool) {
        str_eq(self.as_str(), *other)
    }
}

impl<'a> vstd::std_specs::cmp::PartialEqSpecImpl<&'a str> for IString {
    open spec fn obeys_eq_spec() -> bool {
        true
    }

    open spec fn eq_spec(&self, other: &&'a str) -> bool {
        self@ == other@
    }
}

impl<'a> PartialOrd<&'a str> for IString {
    fn partial_cmp(&self, other: &&'a str) -> (r: Option<Ordering>) {
        Some(str_cmp(self.as_str(), *other))
    }
}

impl<'a> vstd::std_specs::cmp::PartialOrdSpecImpl<&'a str> for IString {
    open spec fn obeys_partial_cmp_spec() -> bool {
        true
    }

    open spec fn partial_cmp_spec(&self, other: &&'a str) -> Option<Ordering> {
        Some(text_cmp(self@, other@))
    }
}

impl<'a> PartialEq<IString> for &'a str {
    fn eq(&self, other: &IString) -> (r: bool) {
        str_eq(*self, other.as_str())
    }
}

impl<'a> vstd::std_specs::cmp::PartialEqSpecImpl<IString> for &'a str {
    open spec fn obeys_eq_spec() -> bool {
        true
    }

    open spec fn eq_spec(&self, other: &IString) -> bool {
        self@ == other@
    }
}

impl<'a> PartialOrd<IString> for &'a str {
    fn partial_cmp(&self, other: &IString) -> (r: Option<Ordering>) {
        Some(str_cmp(*self, other.as_str()))
    }
}

impl<'a> vstd::std_specs::cmp::PartialOrdSpecImpl<IString> for &'a str {
    open spec fn obeys_partial_cmp_spec() -> bool {
        true
    }

    open spec fn partial_cmp_spec(&self, other: &IString) -> Option<Ordering> {
        Some(text_cmp(self@, other@))
    }
}

impl PartialEq<String> for IString {
    fn eq(&self, other: &String) -> (r: bool) {
        str_eq(self.as_str(), other.as_str())
    }
}

impl vstd::std_specs::cmp::PartialEqSpecImpl<String> for IString {
    open spec fn obeys_eq_spec() -> bool {
        true
    }

    open spec fn eq_spec(&self, other: &String) -> bool {
        self@ == other@
    }
}

impl PartialOrd<String> for IString {
    fn partial_cmp(&self, other: &String) -> (r: Option<Ordering>) {
        Some(str_cmp(self.as_str(), other.as_str()))
    }
}

impl vstd::std_specs::cmp::PartialOrdSpecImpl<String> for IString {
    open spec fn obeys_partial_cmp_spec() -> bool {
        true
    }

    open spec fn partial_cmp_spec(&self, other: &String) -> Option<Ordering> {
        Some(text_cmp(self@, other@))
    }
}

impl PartialEq<IString> for String {
    fn eq(&self, other: &IString) -> (r: bool) {
        str_eq(self.as_str(), other.as_str())
    }
}

impl vstd::std_specs::cmp::PartialEqSpecImpl<IString> for String {
    open spec fn obeys_eq_spec() -> bool {
        true
    }

    open spec fn eq_spec(&self, other: &IString) -> bool {
        self@ == other@
    }
}

impl PartialOrd<IString> for String {
    fn partial_cmp(&self, other: &IString) -> (r: Option<Ordering>) {
        Some(str_cmp(self.as_str(), other.as_str()))
    }
}

impl vstd::std_specs::cmp::PartialOrdSpecImpl<IString> for String {
    open spec fn obeys_partial_cmp_spec() -> bool {
        true
    }

    open spec fn partial_cmp_spec(&self, other: &IString) -> Option<Ordering> {
        Some(text_cmp(self@, other@))
    }
}

impl<'a> PartialEq<&'a String> for IString {
    fn eq(&self, other: &&'a String) -> (r: bool) {
        str_eq(self.as_str(), other.as_str())
    }
}

impl<'a> vstd::std_specs::cmp::PartialEqSpecImpl<&'a String> for IString {
    open spec fn obeys_eq_spec() -> bool {
        true
    }

    open spec fn eq_spec(&self, other: &&'a String) -> bool {
        self@ == other@
    }
}

impl<'a> PartialOrd<&'a String> for IString {
    fn partial_cmp(&self, other: &&'a String) -> (r: Option<Ordering>) {
        Some(str_cmp(self.as_str(), other.as_str()))
    }
}

impl<'a> vstd::std_specs::cmp::PartialOrdSpecImpl<&'a String> for IString {
    open spec fn obeys_partial_cmp_spec() -> bool {
        true
    }

    open spec fn partial_cmp_spec(&self, other: &&'a String) -> Option<Ordering> {
        Some(text_cmp(self@, other@))
    }
}

impl<'a> PartialEq<IString> for &'a String {
    fn eq(&self, other: &IString) -> (r: bool) {
        str_eq(self.as_str(), other.as_str())
    }
}

impl<'a> vstd::std_specs::cmp::PartialEqSpecImpl<IString> for &'a String {
    open spec fn obeys_eq_spec() -> bool {
        true
    }

    open spec fn eq_spec(&self, other: &IString) -> bool {
        self@ == other@
    }
}

impl<'a> PartialOrd<IString> for &'a String {
    fn partial_cmp(&self, other: &IString) -> (r: Option<Ordering>) {
        Some(str_cmp(self.as_str(), other.as_str()))
    }
}

impl<'a> vstd::std_specs::cmp::PartialOrdSpecImpl<IString> for &'a String {
    open spec fn obeys_partial_cmp_spec() -> bool {
        true
    }

    open spec fn partial_cmp_spec(&self, other: &IString) -> Option<Ordering> {
        Some(text_cmp(self@, other@))
    }
}

/// A clone compares equal to the string it was made from, whatever its storage.
pub proof fn lemma_clone_compares_equal(a: IString, c: IString)
    requires
        call_ensures(<IString as Clone>::clone, (&a,), c),
    ensures
        c@ == a@,
        <IString as vstd::std_specs::cmp::PartialEqSpec>::eq_spec(&c, &a),
{
}

/// A byte sequence orders before any longer sequence that starts with it.
pub proof fn lemma_bytes_prefix_first(a: Seq<u8>, rest: Seq<u8>)
    requires
        rest.len() > 0,
    ensures
        bytes_cmp(a, a + rest) == Ordering::Less,
    decreases a.len(),
{
    if a.len() > 0 {
        assert((a + rest).drop_first() =~= a.drop_first() + rest);
        lemma_bytes_prefix_first(a.drop_first(), rest);
    }
}

/// The encoding of two texts one after the other is the encodings one after the other.
pub proof fn lemma_encode_concat(a: Seq<char>, b: Seq<char>)
    ensures
        vstd::utf8::encode_utf8(a + b) == vstd::utf8::encode_utf8(a) + vstd::utf8::encode_utf8(b),
    decreases a.len(),
{
    if a.len() == 0 {
        assert(a + b =~= b);
        assert(vstd::utf8::encode_utf8(a) + vstd::utf8::encode_utf8(b) =~= vstd::utf8::encode_utf8(b));
    } else {
        assert((a + b).drop_first() =~= a.drop_first() + b);
        assert((a + b)[0] == a[0]);
        lemma_encode_concat(a.drop_first(), b);
        assert(vstd::utf8::encode_utf8(a + b) =~= vstd::utf8::encode_utf8(a) + vstd::utf8::encode_utf8(b));
    }
}

/// A text orders before any longer text that starts with it, as "foo" before "foobar".
pub proof fn lemma_prefix_orders_first(a: Seq<char>, rest: Seq<char>)
    requires
        rest.len() > 0,
    ensures
        text_cmp(a, a + rest) == Ordering::Less,
{
    lemma_encode_concat(a, rest);
    assert(vstd::utf8::encode_utf8(rest).len() > 0);
    lemma_bytes_prefix_first(vstd::utf8::encode_utf8(a), vstd::utf8::encode_utf8(rest));
}

/// Strings holding the same text compare equal, whatever their storage.
pub proof fn lemma_eq_by_content(a: IString, b: IString)
    requires
        a@ == b@,
    ensures
        <IString as vstd::std_specs::cmp::PartialEqSpec>::eq_spec(&a, &b),
        <IString as vstd::std_specs::cmp::PartialOrdSpec>::partial_cmp_spec(&a, &b) == Some(Ordering::Equal),
{
    lemma_bytes_cmp_equal(vstd::utf8::encode_utf8(a@), vstd::utf8::encode_utf8(b@));
}

/// Comparing a string with plain text, with a `String` or with a reference to one, in either
/// order, agrees with comparing it with a string that holds the same text.
pub proof fn lemma_comparisons_agree<'a>(a: IString, b: IString, s: &'a str, t: &'a String)
    requires
        b@ == s@,
        b@ == t@,
    ensures
        <IString as vstd::std_specs::cmp::PartialEqSpec<str>>::eq_spec(&a, s) == <IString as vstd::std_specs::cmp::PartialEqSpec>::eq_spec(&a, &b),
        <str as vstd::std_specs::cmp::PartialEqSpec<IString>>::eq_spec(s, &a) == <IString as vstd::std_specs::cmp::PartialEqSpec>::eq_spec(&b, &a),
        <IString as vstd::std_specs::cmp::PartialEqSpec<&'a str>>::eq_spec(&a, &s) == <IString as vstd::std_specs::cmp::PartialEqSpec>::eq_spec(&a, &b),
        <&'a str as vstd::std_specs::cmp::PartialEqSpec<IString>>::eq_spec(&s, &a) == <IString as vstd::std_specs::cmp::PartialEqSpec>::eq_spec(&b, &a),
        <IString as vstd::std_specs::cmp::PartialEqSpec<String>>::eq_spec(&a, t) == <IString as vstd::std_specs::cmp::PartialEqSpec>::eq_spec(&a, &b),
        <String as vstd::std_specs::cmp::PartialEqSpec<IString>>::eq_spec(t, &a) == <IString as vstd::std_specs::cmp::PartialEqSpec>::eq_spec(&b, &a),
        <IString as vstd::std_specs::cmp::PartialEqSpec<&'a String>>::eq_spec(&a, &t) == <IString as vstd::std_specs::cmp::PartialEqSpec>::eq_spec(&a, &b),
        <&'a String as vstd::std_specs::cmp::PartialEqSpec<IString>>::eq_spec(&t, &a) == <IString as vstd::std_specs::cmp::PartialEqSpec>::eq_spec(&b, &a),
        <IString as vstd::std_specs::cmp::PartialOrdSpec<str>>::partial_cmp_spec(&a, s) == <IString as vstd::std_specs::cmp::PartialOrdSpec>::partial_cmp_spec(&a, &b),
        <str as vstd::std_specs::cmp::PartialOrdSpec<IString>>::partial_cmp_spec(s, &a) == <IString as vstd::std_specs::cmp::PartialOrdSpec>::partial_cmp_spec(&b, &a),
        <IString as vstd::std_specs::cmp::PartialOrdSpec<&'a str>>::partial_cmp_spec(&a, &s) == <IString as vstd::std_specs::cmp::PartialOrdSpec>::partial_cmp_spec(&a, &b),
        <&'a str as vstd::std_specs::cmp::PartialOrdSpec<IString>>::partial_cmp_spec(&s, &a) == <IString as vstd::std_specs::cmp::PartialOrdSpec>::partial_cmp_spec(&b, &a),
        <IString as vstd::std_specs::cmp::PartialOrdSpec<String>>::partial_cmp_spec(&a, t) == <IString as vstd::std_specs::cmp::PartialOrdSpec>::partial_cmp_spec(&a, &b),
        <String as vstd::std_specs::cmp::PartialOrdSpec<IString>>::partial_cmp_spec(t, &a) == <IString as vstd::std_specs::cmp::PartialOrdSpec>::partial_cmp_spec(&b, &a),
        <IString as vstd::std_specs::cmp::PartialOrdSpec<&'a String>>::partial_cmp_spec(&a, &t) == <IString as vstd::std_specs::cmp::PartialOrdSpec>::partial_cmp_spec(&a, &b),
        <&'a String as vstd::std_specs::cmp::PartialOrdSpec<IString>>::partial_cmp_spec(&t, &a) == <IString as vstd::std_specs::cmp::PartialOrdSpec>::partial_cmp_spec(&b, &a),
{
}

} // verus!
