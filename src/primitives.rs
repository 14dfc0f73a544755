use vstd::prelude::*;
use vstd::utf8::*;

use crate::error::FfiError;

verus! {

broadcast use {encode_utf8_valid_utf8, encode_utf8_decode_utf8, decode_utf8_encode_utf8};

/// No byte of `b` is the terminator byte.
pub open spec fn nul_free(b: Seq<u8>) -> bool {
    forall|i: int| 0 <= i < b.len() ==> b[i] != 0u8
}

/// Text that can cross the boundary: its UTF-8 encoding holds no terminator byte.
pub open spec fn encodable(s: Seq<char>) -> bool {
    nul_free(encode_utf8(s))
}

/// Optional text that can cross the boundary.
pub open spec fn opt_encodable(s: Option<String>) -> bool {
    match s {
        Some(t) => encodable(t@),
        None => true,
    }
}

/// The encoded form of each string of a list, in order.
pub open spec fn encode_all(v: Seq<String>) -> Seq<Seq<u8>> {
    Seq::new(v.len(), |i: int| encode_utf8(v[i]@))
}

/// A list of strings that can cross the boundary.
pub open spec fn all_encodable(v: Seq<String>) -> bool {
    forall|i: int| 0 <= i < v.len() ==> encodable(#[trigger] v[i]@)
}

/// An optional list of strings that can cross the boundary.
pub open spec fn opt_all_encodable(v: Option<Vec<String>>) -> bool {
    match v {
        Some(w) => all_encodable(w@),
        None => true,
    }
}

/// The native text of a list of strings, in order.
pub open spec fn texts(v: Seq<String>) -> Seq<Seq<char>> {
    Seq::new(v.len(), |i: int| v[i]@)
}

/// The native text of an optional list of strings.
pub open spec fn opt_texts(v: Option<Vec<String>>) -> Option<Seq<Seq<char>>> {
    match v {
        Some(w) => Some(texts(w@)),
        None => None,
    }
}

/// The native text of an optional string.
pub open spec fn opt_text(s: Option<String>) -> Option<Seq<char>> {
    match s {
        Some(t) => Some(t@),
        None => None,
    }
}

/// `b` is null exactly when `v` is absent, and otherwise owns the moved value.
pub open spec fn opaque_moved<T>(b: Option<Box<T>>, v: Option<T>) -> bool {
    match (b, v) {
        (Some(x), Some(y)) => *x == y,
        (None, None) => true,
        _ => false,
    }
}

/// One for a present value, zero for an absent one.
pub open spec fn present<T>(o: Option<T>) -> nat {
    if o is Some { 1 } else { 0 }
}

/// An owned, terminator-free block of UTF-8 bytes: the foreign form of a string.
pub struct ForeignString {
    bytes: Vec<u8>,
}

impl View for ForeignString {
    type V = Seq<u8>;

    closed spec fn view(&self) -> Seq<u8> {
        self.bytes@
    }
}

/// `f` is the foreign form of the text `s`.
pub open spec fn represents(f: ForeignString, s: Seq<char>) -> bool {
    f@ == encode_utf8(s)
}

/// A foreign string that decodes to native text.
pub open spec fn decodable(f: ForeignString) -> bool {
    valid_utf8(f@)
}

/// `f` is null exactly when `s` is absent, and otherwise its foreign form.
pub open spec fn opt_represents(f: Option<ForeignString>, s: Option<String>) -> bool {
    match (f, s) {
        (Some(g), Some(t)) => represents(g, t@),
        (None, None) => true,
        _ => false,
    }
}

/// A nullable foreign string that decodes to native text.
pub open spec fn opt_decodable(f: Option<ForeignString>) -> bool {
    match f {
        Some(g) => decodable(g),
        None => true,
    }
}

/// Relies on String::from_utf8: it succeeds exactly on well-formed UTF-8 and then
/// holds the decoded characters.
#[verifier::external_body]
fn utf8_to_string(b: Vec<u8>) -> (r: Option<String>)
    ensures
        r is Some <==> valid_utf8(b@),
        r matches Some(s) ==> s@ == decode_utf8(b@),
{
    String::from_utf8(b).ok()
}

/// Finds whether a byte block holds a terminator byte.
fn has_nul(b: &Vec<u8>) -> (r: bool)
    ensures
        r == !nul_free(b@),
{
    let mut i: usize = 0;
    while i < b.len()
        invariant
            i <= b@.len(),
            forall|j: int| 0 <= j < i ==> b@[j] != 0u8,
        decreases b@.len() - i,
    {
        if b[i] == 0 {
            return true;
        }
        i = i + 1;
    }
    false
}

impl ForeignString {
    #[verifier::type_invariant]
    spec fn inv(self) -> bool {
        nul_free(self.bytes@)
    }

    /// Takes ownership of a byte block, refusing one that holds a terminator byte.
    pub fn from_bytes(bytes: Vec<u8>) -> (r: Result<ForeignString, FfiError>)
        ensures
            r is Ok <==> nul_free(bytes@),
            r matches Ok(f) ==> f@ == bytes@,
            r matches Err(e) ==> e == FfiError::InvalidStringEncoding,
    {
        if has_nul(&bytes) {
            Err(FfiError::InvalidStringEncoding)
        } else {
            Ok(ForeignString { bytes })
        }
    }

    /// The foreign form of a native string.
    pub fn from_string(s: String) -> (r: Result<ForeignString, FfiError>)
        ensures
            r is Ok <==> encodable(s@),
            r matches Ok(f) ==> represents(f, s@),
            r matches Err(e) ==> e == FfiError::InvalidStringEncoding,
    {
        let bytes = s.as_str().as_bytes_vec();
        ForeignString::from_bytes(bytes)
    }

    /// Copies the bytes out.
    pub fn to_bytes(&self) -> (r: Vec<u8>)
        ensures
            r@ == self@,
    {
        self.bytes.clone()
    }

    /// Copies the text out, failing on bytes that are not UTF-8.
    pub fn as_rust(&self) -> (r: Result<String, FfiError>)
        ensures
            r is Ok <==> decodable(*self),
            r matches Ok(s) ==> represents(*self, s@) && s@ == decode_utf8(self@),
            r matches Err(e) ==> e == FfiError::MalformedForeignInput,
    {
        match utf8_to_string(self.bytes.clone()) {
            Some(s) => Ok(s),
            None => Err(FfiError::MalformedForeignInput),
        }
    }
}

/// The foreign form of an optional string: null when absent.
pub fn to_nullable(s: Option<String>) -> (r: Result<Option<ForeignString>, FfiError>)
    ensures
        r is Ok <==> opt_encodable(s),
        r matches Ok(f) ==> opt_represents(f, s),
        r matches Err(e) ==> e == FfiError::InvalidStringEncoding,
{
    match s {
        Some(t) => match ForeignString::from_string(t) {
            Ok(f) => Ok(Some(f)),
            Err(e) => Err(e),
        },
        None => Ok(None),
    }
}

/// The native form of a nullable foreign string: absent when null.
pub fn from_nullable(f: &Option<ForeignString>) -> (r: Result<Option<String>, FfiError>)
    ensures
        r is Ok <==> opt_decodable(*f),
        r matches Ok(s) ==> opt_represents(*f, s),
        r matches Err(e) ==> e == FfiError::MalformedForeignInput,
{
    match f {
        Some(g) => match g.as_rust() {
            Ok(s) => Ok(Some(s)),
            Err(e) => Err(e),
        },
        None => Ok(None),
    }
}

/// One for a present value, zero for an absent one.
pub fn count_present<T>(o: &Option<T>) -> (n: usize)
    ensures
        n == present(*o),
{
    if o.is_some() { 1 } else { 0 }
}

/// An owned list of foreign strings with its 32-bit count beside it.
pub struct ForeignStringArray {
    items: Vec<ForeignString>,
    count: i32,
}

impl View for ForeignStringArray {
    type V = Seq<Seq<u8>>;

    closed spec fn view(&self) -> Seq<Seq<u8>> {
        Seq::new(self.items@.len(), |i: int| self.items@[i]@)
    }
}

/// `a` is the foreign form of the list `v`.
pub open spec fn array_represents(a: ForeignStringArray, v: Seq<String>) -> bool {
    a@ == encode_all(v)
}

/// A foreign list whose every string decodes to native text.
pub open spec fn array_decodable(a: ForeignStringArray) -> bool {
    forall|i: int| 0 <= i < a@.len() ==> valid_utf8(#[trigger] a@[i])
}

/// `a` is null exactly when `v` is absent, and otherwise its foreign form.
pub open spec fn opt_array_represents(a: Option<ForeignStringArray>, v: Option<Vec<String>>) -> bool {
    match (a, v) {
        (Some(b), Some(w)) => array_represents(b, w@),
        (None, None) => true,
        _ => false,
    }
}

/// A nullable foreign list that decodes to native text.
pub open spec fn opt_array_decodable(a: Option<ForeignStringArray>) -> bool {
    match a {
        Some(b) => array_decodable(b),
        None => true,
    }
}

impl ForeignStringArray {
    #[verifier::type_invariant]
    spec fn inv(self) -> bool {
        self.count as int == self.items@.len()
    }

    /// The foreign form of a list of strings.
    pub fn from_strings(v: Vec<String>) -> (r: Result<ForeignStringArray, FfiError>)
        requires
            v@.len() <= i32::MAX,
        ensures
            r is Ok <==> all_encodable(v@),
            r matches Ok(a) ==> array_represents(a, v@),
            r matches Err(e) ==> e == FfiError::InvalidStringEncoding,
    {
        let mut items: Vec<ForeignString> = Vec::new();
        let mut i: usize = 0;
        while i < v.len()
            invariant
                i <= v@.len(),
                v@.len() <= i32::MAX,
                items@.len() == i,
                forall|j: int| 0 <= j < i ==> represents(#[trigger] items@[j], v@[j]@),
                forall|j: int| 0 <= j < i ==> encodable(#[trigger] v@[j]@),
            decreases v@.len() - i,
        {
            match ForeignString::from_string(v[i].clone()) {
                Ok(f) => items.push(f),
                Err(e) => return Err(e),
            }
            i = i + 1;
        }
        let a = ForeignStringArray { items, count: i as i32 };
        assert(a@ =~= encode_all(v@));
        Ok(a)
    }

    /// The 32-bit count stored beside the strings.
    pub fn count(&self) -> (r: i32)
        ensures
            r as int == self@.len(),
    {
        proof {
            use_type_invariant(self);
        }
        self.count
    }

    /// Copies every string out, in order.
    pub fn as_rust(&self) -> (r: Result<Vec<String>, FfiError>)
        ensures
            r is Ok <==> array_decodable(*self),
            r matches Ok(v) ==> array_represents(*self, v@) && v@.len() <= i32::MAX,
            r matches Err(e) ==> e == FfiError::MalformedForeignInput,
    {
        proof {
            use_type_invariant(self);
        }
        let mut out: Vec<String> = Vec::new();
        let mut i: usize = 0;
        while i < self.items.len()
            invariant
                i <= self.items@.len(),
                self.items@.len() <= i32::MAX,
                out@.len() == i,
                forall|j: int| 0 <= j < i ==> represents(self.items@[j], (#[trigger] out@[j])@),
                forall|j: int| 0 <= j < i ==> valid_utf8(#[trigger] self.items@[j]@),
            decreases self.items@.len() - i,
        {
            match self.items[i].as_rust() {
                Ok(s) => out.push(s),
                Err(e) => {
                    assert(!valid_utf8(self@[i as int]));
                    return Err(e);
                },
            }
            i = i + 1;
        }
        assert(self@ =~= encode_all(out@));
        Ok(out)
    }
}

/// The foreign form of an optional list of strings: null when absent.
pub fn to_nullable_array(v: Option<Vec<String>>) -> (r: Result<Option<ForeignStringArray>, FfiError>)
    requires
        v matches Some(w) ==> w@.len() <= i32::MAX,
    ensures
        r is Ok <==> opt_all_encodable(v),
        r matches Ok(a) ==> opt_array_represents(a, v),
        r matches Err(e) ==> e == FfiError::InvalidStringEncoding,
{
    match v {
        Some(w) => match ForeignStringArray::from_strings(w) {
            Ok(a) => Ok(Some(a)),
            Err(e) => Err(e),
        },
        None => Ok(None),
    }
}

/// The native form of a nullable foreign list: absent when null.
pub fn from_nullable_array(a: &Option<ForeignStringArray>) -> (r: Result<Option<Vec<String>>, FfiError>)
    ensures
        r is Ok <==> opt_array_decodable(*a),
        r matches Ok(v) ==> opt_array_represents(*a, v) && opt_all_fits(v),
        r matches Err(e) ==> e == FfiError::MalformedForeignInput,
{
    match a {
        Some(b) => match b.as_rust() {
            Ok(v) => Ok(Some(v)),
            Err(e) => Err(e),
        },
        None => Ok(None),
    }
}

/// An optional list whose length fits the 32-bit count.
pub open spec fn opt_all_fits(v: Option<Vec<String>>) -> bool {
    v matches Some(w) ==> w@.len() <= i32::MAX
}

/// An owned byte buffer with its 32-bit length beside it.
pub struct ForeignBuffer {
    data: Vec<u8>,
    len: i32,
}

impl View for ForeignBuffer {
    type V = Seq<u8>;

    closed spec fn view(&self) -> Seq<u8> {
        self.data@
    }
}

impl ForeignBuffer {
    #[verifier::type_invariant]
    spec fn inv(self) -> bool {
        self.len as int == self.data@.len()
    }

    /// Takes ownership of a byte block whose length fits the 32-bit field.
    pub fn from_vec(data: Vec<u8>) -> (r: ForeignBuffer)
        requires
            data@.len() <= i32::MAX,
        ensures
            r@ == data@,
    {
        let len = data.len() as i32;
        ForeignBuffer { data, len }
    }

    /// The 32-bit length stored beside the bytes.
    pub fn len(&self) -> (r: i32)
        ensures
            r as int == self@.len(),
    {
        proof {
            use_type_invariant(self);
        }
        self.len
    }

    /// Copies the bytes out.
    pub fn to_vec(&self) -> (r: Vec<u8>)
        ensures
            r@ == self@,
            r@.len() <= i32::MAX,
    {
        proof {
            use_type_invariant(self);
        }
        self.data.clone()
    }
}

/// Equal encodings come from equal text.
pub proof fn lemma_encoding_injective(a: Seq<char>, b: Seq<char>)
    requires
        encode_utf8(a) == encode_utf8(b),
    ensures
        a == b,
{
    assert(decode_utf8(encode_utf8(a)) == a);
    assert(decode_utf8(encode_utf8(b)) == b);
}

/// What releasing a record handed back to the allocator, by kind of block.
#[derive(Debug, Clone, Copy, PartialEq, Eq, Structural)]
pub struct ReleaseTally {
    /// Foreign strings freed.
    pub strings: usize,
    /// Foreign string lists freed.
    pub arrays: usize,
    /// Byte buffers freed.
    pub buffers: usize,
    /// Boxed sub-records and opaque payloads freed.
    pub boxes: usize,
}

/// A text field survives the trip to its foreign form and back, and the foreign
/// form decodes.
pub proof fn lemma_text_round_trip(f: ForeignString, a: Seq<char>, b: Seq<char>)
    requires
        represents(f, a),
        represents(f, b),
    ensures
        decodable(f),
        a == b,
{
    lemma_encoding_injective(a, b);
}

/// A nullable text field survives the trip to its foreign form and back.
pub proof fn lemma_opt_text_round_trip(f: Option<ForeignString>, a: Option<String>, b: Option<String>)
    requires
        opt_represents(f, a),
        opt_represents(f, b),
    ensures
        opt_decodable(f),
        opt_text(a) == opt_text(b),
{
    if let (Some(g), Some(x), Some(y)) = (f, a, b) {
        lemma_text_round_trip(g, x@, y@);
    }
}

/// A list of strings survives the trip to its foreign form and back.
pub proof fn lemma_array_round_trip(f: ForeignStringArray, a: Seq<String>, b: Seq<String>)
    requires
        array_represents(f, a),
        array_represents(f, b),
    ensures
        array_decodable(f),
        texts(a) == texts(b),
{
    assert(encode_all(a).len() == a.len() && encode_all(b).len() == b.len());
    assert forall|i: int| 0 <= i < a.len() implies a[i]@ == b[i]@ by {
        assert(encode_all(a)[i] == encode_utf8(a[i]@));
        assert(encode_all(b)[i] == encode_utf8(b[i]@));
        lemma_encoding_injective(a[i]@, b[i]@);
    }
    assert(texts(a) =~= texts(b));
    assert forall|i: int| 0 <= i < f@.len() implies valid_utf8(#[trigger] f@[i]) by {
        assert(f@[i] == encode_utf8(a[i]@));
    }
}

/// A nullable list of strings survives the trip to its foreign form and back.
pub proof fn lemma_opt_array_round_trip(
    f: Option<ForeignStringArray>,
    a: Option<Vec<String>>,
    b: Option<Vec<String>>,
)
    requires
        opt_array_represents(f, a),
        opt_array_represents(f, b),
    ensures
        opt_array_decodable(f),
        opt_texts(a) == opt_texts(b),
{
    if let (Some(g), Some(x), Some(y)) = (f, a, b) {
        lemma_array_round_trip(g, x@, y@);
    }
}

/// Null stands for absent and only for absent: a nullable text field that is
/// absent becomes null and decodes as absent again, and one that is present
/// becomes non-null and decodes to the same text.
pub proof fn lemma_nullable_text(f: Option<ForeignString>, s: Option<String>, back: Option<String>)
    requires
        opt_represents(f, s),
        opt_represents(f, back),
    ensures
        f is None <==> s is None,
        back is None <==> s is None,
        s matches Some(t) ==> (back matches Some(u) && u@ == t@),
{
    lemma_opt_text_round_trip(f, s, back);
}

/// Null stands for absent and only for absent, for nullable lists of strings.
pub proof fn lemma_nullable_array(
    f: Option<ForeignStringArray>,
    v: Option<Vec<String>>,
    back: Option<Vec<String>>,
)
    requires
        opt_array_represents(f, v),
        opt_array_represents(f, back),
    ensures
        f is None <==> v is None,
        back is None <==> v is None,
        v matches Some(w) ==> (back matches Some(u) && texts(u@) == texts(w@)),
{
    lemma_opt_array_round_trip(f, v, back);
}

} // verus!
