//! Identifiers of monitors and deadlines.
use vstd::prelude::*;
use vstd::string::*;
use vstd::utf8::*;

verus! {

/// Compares two byte slices element by element.
pub fn bytes_equal(a: &[u8], b: &[u8]) -> (same: bool)
    ensures
        same == (a@ == b@),
{
    if a.len() != b.len() {
        return false;
    }
    let mut i: usize = 0;
    while i < a.len()
        invariant
            i <= a.len(),
            a.len() == b.len(),
            forall|j: int| 0 <= j < i ==> a@[j] == b@[j],
        decreases a.len() - i,
    {
        if a[i] != b[i] {
            return false;
        }
        i += 1;
    }
    assert(a@ =~= b@);
    true
}

/// Two texts are equal exactly when their UTF-8 encodings are equal.
pub proof fn lemma_text_equal_iff_bytes_equal(a: Seq<char>, b: Seq<char>)
    ensures
        (a == b) <==> (encode_utf8(a) == encode_utf8(b)),
{
    encode_utf8_decode_utf8(a);
    encode_utf8_decode_utf8(b);
}

/// Takes a `String` out of the allocator's care for the rest of the process.
///
/// Calls `String::leak`, which hands back the same text with a lifetime that
/// never ends.
#[verifier::external_body]
fn leak_text(value: String) -> (text: &'static str)
    ensures
        text@ == value@,
{
    value.leak()
}

/// An immutable identifier: a stable piece of UTF-8 text.
///
/// Identity is the text itself: two tags are equal exactly when their bytes
/// are equal, wherever those bytes are stored. A tag is cheap to copy and
/// lives until the end of the process.
#[derive(Clone, Copy, Debug, Eq, Hash)]
pub struct IdentTag {
    data: &'static str,
}

impl View for IdentTag {
    type V = Seq<char>;

    closed spec fn view(&self) -> Seq<char> {
        self.data@
    }
}

impl IdentTag {
    /// The bytes that back this tag: the UTF-8 encoding of its text.
    pub closed spec fn bytes(&self) -> Seq<u8> {
        self.data.spec_bytes()
    }

    /// Creates a tag from text that lives as long as the process.
    pub fn new(data: &'static str) -> (tag: Self)
        ensures
            tag@ == data@,
    {
        Self { data }
    }

    /// The text of this tag.
    pub fn as_str(&self) -> (text: &'static str)
        ensures
            text@ == self@,
    {
        self.data
    }

    /// Creates a tag that keeps `value` for the rest of the process.
    pub fn from_string(value: String) -> (tag: Self)
        ensures
            tag@ == value@,
    {
        Self { data: leak_text(value) }
    }

    /// Creates a tag from borrowed text, which is copied.
    pub fn from_text(value: &str) -> (tag: Self)
        ensures
            tag@ == value@,
    {
        Self { data: leak_text(value.to_owned()) }
    }

    /// Two tags have the same text exactly when they have the same bytes.
    pub proof fn lemma_same_text_iff_same_bytes(&self, other: &Self)
        ensures
            self@ == other@ <==> self.bytes() == other.bytes(),
    {
        lemma_text_equal_iff_bytes_equal(self@, other@);
    }
}

impl PartialEq for IdentTag {
    fn eq(&self, other: &Self) -> (same: bool) {
        proof {
            self.lemma_same_text_iff_same_bytes(other);
        }
        bytes_equal(self.data.as_bytes(), other.data.as_bytes())
    }
}

impl vstd::std_specs::cmp::PartialEqSpecImpl for IdentTag {
    open spec fn obeys_eq_spec() -> bool {
        true
    }

    open spec fn eq_spec(&self, other: &Self) -> bool {
        self@ == other@
    }
}

impl<'a> From<&'a str> for IdentTag {
    /// Creates a tag from borrowed text, which is copied.
    fn from(value: &'a str) -> (tag: Self)
        ensures
            tag@ == value@,
    {
        Self::from_text(value)
    }
}

impl<'a> vstd::std_specs::convert::FromSpecImpl<&'a str> for IdentTag {
    open spec fn obeys_from_spec() -> bool {
        false
    }

    open spec fn from_spec(value: &'a str) -> Self {
        arbitrary()
    }
}

impl From<String> for IdentTag {
    /// Creates a tag that keeps `value` for the rest of the process.
    fn from(value: String) -> (tag: Self)
        ensures
            tag@ == value@,
    {
        Self::from_string(value)
    }
}

impl vstd::std_specs::convert::FromSpecImpl<String> for IdentTag {
    open spec fn obeys_from_spec() -> bool {
        false
    }

    open spec fn from_spec(value: String) -> Self {
        arbitrary()
    }
}

/// Names a monitor inside a health monitor.
#[derive(Clone, Copy, Debug, Eq, Hash)]
pub struct MonitorTag(pub IdentTag);

impl View for MonitorTag {
    type V = Seq<char>;

    open spec fn view(&self) -> Seq<char> {
        self.0@
    }
}

impl MonitorTag {
    /// Creates a monitor tag from text that lives as long as the process.
    pub fn new(data: &'static str) -> (tag: Self)
        ensures
            tag@ == data@,
    {
        Self(IdentTag::new(data))
    }

    /// The identifier shared with reports and logs.
    pub fn ident(&self) -> (ident: IdentTag)
        ensures
            ident == self.0,
    {
        self.0
    }
}

impl PartialEq for MonitorTag {
    fn eq(&self, other: &Self) -> (same: bool) {
        self.0 == other.0
    }
}

impl vstd::std_specs::cmp::PartialEqSpecImpl for MonitorTag {
    open spec fn obeys_eq_spec() -> bool {
        true
    }

    open spec fn eq_spec(&self, other: &Self) -> bool {
        self@ == other@
    }
}

impl From<IdentTag> for MonitorTag {
    fn from(ident: IdentTag) -> (tag: Self) {
        Self(ident)
    }
}

impl vstd::std_specs::convert::FromSpecImpl<IdentTag> for MonitorTag {
    open spec fn obeys_from_spec() -> bool {
        true
    }

    open spec fn from_spec(ident: IdentTag) -> Self {
        MonitorTag(ident)
    }
}

impl<'a> From<&'a str> for MonitorTag {
    /// Creates a tag from borrowed text, which is copied.
    fn from(value: &'a str) -> (tag: Self)
        ensures
            tag@ == value@,
    {
        Self(IdentTag::from_text(value))
    }
}

impl<'a> vstd::std_specs::convert::FromSpecImpl<&'a str> for MonitorTag {
    open spec fn obeys_from_spec() -> bool {
        false
    }

    open spec fn from_spec(value: &'a str) -> Self {
        arbitrary()
    }
}

impl From<String> for MonitorTag {
    /// Creates a tag that keeps `value` for the rest of the process.
    fn from(value: String) -> (tag: Self)
        ensures
            tag@ == value@,
    {
        Self(IdentTag::from_string(value))
    }
}

impl vstd::std_specs::convert::FromSpecImpl<String> for MonitorTag {
    open spec fn obeys_from_spec() -> bool {
        false
    }

    open spec fn from_spec(value: String) -> Self {
        arbitrary()
    }
}

/// Names a deadline inside a deadline monitor.
#[derive(Clone, Copy, Debug, Eq, Hash)]
pub struct DeadlineTag(pub IdentTag);

impl View for DeadlineTag {
    type V = Seq<char>;

    open spec fn view(&self) -> Seq<char> {
        self.0@
    }
}

impl DeadlineTag {
    /// Creates a deadline tag from text that lives as long as the process.
    pub fn new(data: &'static str) -> (tag: Self)
        ensures
            tag@ == data@,
    {
        Self(IdentTag::new(data))
    }

    /// The identifier shared with reports and logs.
    pub fn ident(&self) -> (ident: IdentTag)
        ensures
            ident == self.0,
    {
        self.0
    }
}

impl PartialEq for DeadlineTag {
    fn eq(&self, other: &Self) -> (same: bool) {
        self.0 == other.0
    }
}

impl vstd::std_specs::cmp::PartialEqSpecImpl for DeadlineTag {
    open spec fn obeys_eq_spec() -> bool {
        true
    }

    open spec fn eq_spec(&self, other: &Self) -> bool {
        self@ == other@
    }
}

impl From<IdentTag> for DeadlineTag {
    fn from(ident: IdentTag) -> (tag: Self) {
        Self(ident)
    }
}

impl vstd::std_specs::convert::FromSpecImpl<IdentTag> for DeadlineTag {
    open spec fn obeys_from_spec() -> bool {
        true
    }

    open spec fn from_spec(ident: IdentTag) -> Self {
        DeadlineTag(ident)
    }
}

impl<'a> From<&'a str> for DeadlineTag {
    /// Creates a tag from borrowed text, which is copied.
    fn from(value: &'a str) -> (tag: Self)
        ensures
            tag@ == value@,
    {
        Self(IdentTag::from_text(value))
    }
}

impl<'a> vstd::std_specs::convert::FromSpecImpl<&'a str> for DeadlineTag {
    open spec fn obeys_from_spec() -> bool {
        false
    }

    open spec fn from_spec(value: &'a str) -> Self {
        arbitrary()
    }
}

impl From<String> for DeadlineTag {
    /// Creates a tag that keeps `value` for the rest of the process.
    fn from(value: String) -> (tag: Self)
        ensures
            tag@ == value@,
    {
        Self(IdentTag::from_string(value))
    }
}

impl vstd::std_specs::convert::FromSpecImpl<String> for DeadlineTag {
    open spec fn obeys_from_spec() -> bool {
        false
    }

    open spec fn from_spec(value: String) -> Self {
        arbitrary()
    }
}

} // verus!
