//! Text that crosses the boundary: a JavaScript string, held as UTF-16 units.
use vstd::prelude::*;
use vstd::std_specs::iter::IteratorSpec;

verus! {

broadcast use vstd::string::group_string_axioms;

/// The UTF-16 units that encode one character.
pub open spec fn utf16_units(c: char) -> Seq<u16> {
    let v = c as u32;
    if v < 0x10000 {
        seq![v as u16]
    } else {
        seq![
            (0xD800 + (v - 0x10000) / 0x400) as u16,
            (0xDC00 + (v - 0x10000) % 0x400) as u16,
        ]
    }
}

/// The UTF-16 encoding of a character sequence.
pub open spec fn utf16_encode(s: Seq<char>) -> Seq<u16>
    decreases s.len(),
{
    if s.len() == 0 {
        seq![]
    } else {
        utf16_encode(s.drop_last()) + utf16_units(s.last())
    }
}

proof fn lemma_utf16_encode_push(s: Seq<char>, c: char)
    ensures
        utf16_encode(s.push(c)) == utf16_encode(s) + utf16_units(c),
{
    assert(s.push(c).drop_last() =~= s);
}

fn encode_char(out: &mut Vec<u16>, c: char)
    ensures
        final(out)@ == old(out)@ + utf16_units(c),
{
    let v = c as u32;
    assert(v <= 0x10FFFF);
    if v < 0x10000 {
        out.push(v as u16);
        assert(final(out)@ =~= old(out)@ + utf16_units(c));
    } else {
        let w = v - 0x10000;
        out.push((0xD800 + w / 0x400) as u16);
        out.push((0xDC00 + w % 0x400) as u16);
        assert(final(out)@ =~= old(out)@ + utf16_units(c));
    }
}


/// The UTF-16 units of `s`.
fn encode_str(s: &str) -> (r: Vec<u16>)
    ensures
        r@ == utf16_encode(s@),
{
    let mut out: Vec<u16> = Vec::new();
    for c in it: s.chars()
        invariant
            it.seq() == s@,
            out@ == utf16_encode(it.seq().take(it.index() as int)),
    {
        proof {
            lemma_utf16_encode_push(it.seq().take(it.index() as int), c);
            assert(it.seq().take(it.index() as int).push(c) =~= it.seq().take(it.index() + 1));
        }
        encode_char(&mut out, c);
    }
    assert(s@.take(s@.len() as int) =~= s@);
    out
}


/// Whether `units` is the UTF-16 encoding of some text (no lone surrogates).
pub open spec fn is_utf16(units: Seq<u16>) -> bool {
    exists|t: Seq<char>| utf16_encode(t) == units
}

/// Relies on `String::from_utf16_lossy`: a well-formed UTF-16 sequence
/// decodes to exactly the text it encodes.
#[verifier::external_body]
fn decode_utf16(units: &[u16]) -> (r: String)
    ensures
        is_utf16(units@) ==> utf16_encode(r@) == units@,
{
    String::from_utf16_lossy(units)
}

fn units_equal(a: &[u16], b: &[u16]) -> (r: bool)
    ensures
        r == (a@ == b@),
{
    if a.len() != b.len() {
        return false;
    }
    let mut i: usize = 0;
    while i < a.len()
        invariant
            a@.len() == b@.len(),
            0 <= i <= a@.len(),
            forall|j: int| 0 <= j < i ==> a@[j] == b@[j],
        decreases a@.len() - i,
    {
        if a[i] != b[i] {
            return false;
        }
        i = i + 1;
    }
    assert(a@ =~= b@);
    true
}

/// A JavaScript string: a sequence of UTF-16 code units.
///
/// The text is held by the host; the engine receives its own copy of the
/// units whenever the string is handed over.
#[derive(Debug)]
pub struct JSString {
    units: Vec<u16>,
}

impl View for JSString {
    type V = Seq<u16>;

    closed spec fn view(&self) -> Seq<u16> {
        self.units@
    }
}

impl JSString {
    /// A string with exactly the given UTF-16 units.
    pub fn from_units(units: Vec<u16>) -> (r: JSString)
        ensures
            r@ == units@,
    {
        JSString { units }
    }

    /// The string encoding `text`.
    pub fn from_text(text: &str) -> (r: JSString)
        ensures
            r@ == utf16_encode(text@),
    {
        JSString { units: encode_str(text) }
    }

    /// The UTF-16 units of the string.
    pub fn units(&self) -> (r: &[u16])
        ensures
            r@ == self@,
    {
        self.units.as_slice()
    }

    /// The number of UTF-16 units in the string (the JavaScript `length`).
    pub fn len(&self) -> (r: usize)
        ensures
            r == self@.len(),
    {
        self.units.len()
    }

    /// Whether the string has no units.
    pub fn is_empty(&self) -> (r: bool)
        ensures
            r == (self@.len() == 0),
    {
        self.len() == 0
    }

    /// The text of the string. A string that is not well-formed UTF-16
    /// has each lone surrogate replaced.
    pub fn to_string(&self) -> (r: String)
        ensures
            is_utf16(self@) ==> utf16_encode(r@) == self@,
    {
        decode_utf16(self.units.as_slice())
    }

    /// Whether the string encodes exactly `text`, compared unit by unit.
    pub fn eq_text(&self, text: &str) -> (r: bool)
        ensures
            r == (self@ == utf16_encode(text@)),
    {
        let other = encode_str(text);
        units_equal(self.units.as_slice(), other.as_slice())
    }

    /// Whether two strings hold the same units.
    pub fn eq_string(&self, other: &JSString) -> (r: bool)
        ensures
            r == (self@ == other@),
    {
        units_equal(self.units.as_slice(), other.units.as_slice())
    }
}

/// The string whose units are `units`.
pub closed spec fn string_of_units(units: Seq<u16>) -> JSString {
    choose|r: JSString| r@ == units
}

impl From<&str> for JSString {
    fn from(s: &str) -> (r: JSString)
        ensures
            r@ == utf16_encode(s@),
    {
        JSString::from_text(s)
    }
}

impl vstd::std_specs::convert::FromSpecImpl<&str> for JSString {
    open spec fn obeys_from_spec() -> bool {
        false
    }

    open spec fn from_spec(v: &str) -> JSString {
        string_of_units(utf16_encode(v@))
    }
}

impl From<String> for JSString {
    fn from(s: String) -> (r: JSString)
        ensures
            r@ == utf16_encode(s@),
    {
        JSString::from_text(s.as_str())
    }
}

impl vstd::std_specs::convert::FromSpecImpl<String> for JSString {
    open spec fn obeys_from_spec() -> bool {
        false
    }

    open spec fn from_spec(v: String) -> JSString {
        string_of_units(utf16_encode(v@))
    }
}

impl From<&JSString> for String {
    fn from(s: &JSString) -> (r: String)
        ensures
            is_utf16(s@) ==> utf16_encode(r@) == s@,
    {
        s.to_string()
    }
}

impl vstd::std_specs::convert::FromSpecImpl<&JSString> for String {
    open spec fn obeys_from_spec() -> bool {
        false
    }

    open spec fn from_spec(v: &JSString) -> String {
        choose|r: String| utf16_encode(r@) == v@
    }
}

impl PartialEq for JSString {
    fn eq(&self, other: &JSString) -> (r: bool) {
        self.eq_string(other)
    }
}

impl vstd::std_specs::cmp::PartialEqSpecImpl for JSString {
    open spec fn obeys_eq_spec() -> bool {
        true
    }

    open spec fn eq_spec(&self, other: &JSString) -> bool {
        self@ == other@
    }
}

impl PartialEq<&str> for JSString {
    fn eq(&self, other: &&str) -> (r: bool) {
        self.eq_text(*other)
    }
}

impl vstd::std_specs::cmp::PartialEqSpecImpl<&str> for JSString {
    open spec fn obeys_eq_spec() -> bool {
        true
    }

    open spec fn eq_spec(&self, other: &&str) -> bool {
        self@ == utf16_encode((*other)@)
    }
}

impl PartialEq<String> for JSString {
    fn eq(&self, other: &String) -> (r: bool) {
        self.eq_text(other.as_str())
    }
}

impl vstd::std_specs::cmp::PartialEqSpecImpl<String> for JSString {
    open spec fn obeys_eq_spec() -> bool {
        true
    }

    open spec fn eq_spec(&self, other: &String) -> bool {
        self@ == utf16_encode(other@)
    }
}

impl PartialEq<JSString> for &str {
    fn eq(&self, other: &JSString) -> (r: bool) {
        other.eq_text(*self)
    }
}

impl vstd::std_specs::cmp::PartialEqSpecImpl<JSString> for &str {
    open spec fn obeys_eq_spec() -> bool {
        true
    }

    open spec fn eq_spec(&self, other: &JSString) -> bool {
        utf16_encode((*self)@) == other@
    }
}

impl PartialEq<JSString> for String {
    fn eq(&self, other: &JSString) -> (r: bool) {
        other.eq_text(self.as_str())
    }
}

impl vstd::std_specs::cmp::PartialEqSpecImpl<JSString> for String {
    open spec fn obeys_eq_spec() -> bool {
        true
    }

    open spec fn eq_spec(&self, other: &JSString) -> bool {
        utf16_encode(self@) == other@
    }
}

} // verus!
