//! Names under which subscribers register for notifications, the socket paths
//! the manager records for them, and the decisions about those paths; the file
//! system is inspected by the caller and described to these decisions.

use vstd::prelude::*;
use vstd::string::StringSliceAdditionalSpecFns;
use vstd::string::StringExecFns;
use vstd::string::StrSliceExecFns;
use vstd::utf8::char_is_scalar;
use vstd::utf8::encode_scalar;
use vstd::utf8::encode_utf8;
use vstd::utf8::has_width_1_encoding;
use vstd::utf8::has_width_2_encoding;
use vstd::utf8::has_width_3_encoding;
use vstd::utf8::leading_byte_width_2;
use vstd::utf8::leading_byte_width_3;
use vstd::utf8::leading_byte_width_4;

verus! {

pub open spec fn is_ascii_alphanumeric(b: u8) -> bool {
    (0x30 <= b <= 0x39) || (0x41 <= b <= 0x5a) || (0x61 <= b <= 0x7a)
}

/// Letters, digits, `.`, `_` and `-`.
pub open spec fn is_name_byte(b: u8) -> bool {
    is_ascii_alphanumeric(b) || b == 0x2e || b == 0x5f || b == 0x2d
}

pub open spec fn ascii_upper(b: u8) -> u8 {
    if 0x61 <= b <= 0x7a {
        (b - 32) as u8
    } else {
        b
    }
}

/// The bytes before the first `.`.
pub open spec fn stem(b: Seq<u8>) -> Seq<u8>
    decreases b.len(),
{
    if b.len() == 0 || b[0] == 0x2e {
        Seq::empty()
    } else {
        seq![b[0]] + stem(b.drop_first())
    }
}

/// `CON`, `PRN`, `AUX`, `NUL`, `COM1`..`COM9` or `LPT1`..`LPT9`, in any case.
pub open spec fn is_reserved_stem(s: Seq<u8>) -> bool {
    let u = s.map_values(|b: u8| ascii_upper(b));
    ||| u =~= seq![0x43u8, 0x4f, 0x4e]
    ||| u =~= seq![0x50u8, 0x52, 0x4e]
    ||| u =~= seq![0x41u8, 0x55, 0x58]
    ||| u =~= seq![0x4eu8, 0x55, 0x4c]
    ||| (u.len() == 4 && u[0] == 0x43 && u[1] == 0x4f && u[2] == 0x4d && 0x31 <= u[3] <= 0x39)
    ||| (u.len() == 4 && u[0] == 0x4c && u[1] == 0x50 && u[2] == 0x54 && 0x31 <= u[3] <= 0x39)
}

/// A name whose stem is a reserved Windows device name.
pub open spec fn is_reserved_device_name_spec(b: Seq<u8>) -> bool {
    is_reserved_stem(stem(b))
}

/// One leaf of letters, digits, `.`, `_` and `-`, starting with a letter or
/// digit and not ending with `.`.
pub open spec fn has_leaf_shape(b: Seq<u8>) -> bool {
    &&& b.len() > 0
    &&& is_ascii_alphanumeric(b[0])
    &&& forall|i: int| 1 <= i < b.len() ==> is_name_byte(#[trigger] b[i])
    &&& b.last() != 0x2e
}

pub const MAX_SUBSCRIBER_NAME_LEN: usize = 128;

#[derive(Clone, Debug, PartialEq, Eq, Structural)]
pub enum SubscriberNameError {
    Empty,
    TooLong { len: usize },
    ForbiddenCharacter,
    ReservedDeviceName,
    NotASingleLeaf,
}

/// The outcome of reading a subscriber name from its UTF-8 bytes.
pub open spec fn subscriber_name_verdict(b: Seq<u8>) -> Result<(), SubscriberNameError> {
    if b.len() == 0 {
        Err(SubscriberNameError::Empty)
    } else if b.len() > MAX_SUBSCRIBER_NAME_LEN {
        Err(SubscriberNameError::TooLong { len: b.len() as usize })
    } else if !has_leaf_shape(b) {
        Err(SubscriberNameError::ForbiddenCharacter)
    } else if is_reserved_device_name_spec(b) {
        Err(SubscriberNameError::ReservedDeviceName)
    } else {
        Ok(())
    }
}

/// Single-component subscriber leaf accepted at the untrusted command edge.
#[derive(Debug, PartialEq, Eq, Hash)]
pub struct SubscriberName {
    name: String,
}

impl Clone for SubscriberName {
    fn clone(&self) -> (r: Self)
        ensures
            r == *self,
    {
        proof {
            use_type_invariant(self);
        }
        SubscriberName { name: self.name.clone() }
    }
}

/// A text whose UTF-8 bytes all lie below 0x80 is ASCII, and its encoding is
/// the text itself, one byte per character.
proof fn lemma_ascii_bytes_encode_ascii_text(chars: Seq<char>)
    requires
        forall|i: int| 0 <= i < encode_utf8(chars).len() ==> #[trigger] encode_utf8(chars)[i] < 0x80,
    ensures
        encode_utf8(chars).len() == chars.len(),
        forall|i: int|
            0 <= i < chars.len() ==> (#[trigger] chars[i]) as u32 <= 0x7f && encode_utf8(chars)[i] as int
                == chars[i] as u32 as int,
    decreases chars.len(),
{
    if chars.len() > 0 {
        let c = chars[0] as u32;
        let rest = chars.drop_first();
        char_is_scalar(chars[0]);
        let bytes = encode_utf8(chars);
        assert(bytes == encode_scalar(c) + encode_utf8(rest));
        assert(bytes[0] < 0x80);
        if has_width_1_encoding(c) {
            assert(((c & 0x7F) as u8) as int == c as int) by (bit_vector)
                requires
                    c <= 0x7f,
            ;
            assert forall|i: int| 0 <= i < encode_utf8(rest).len() implies #[trigger] encode_utf8(rest)[i]
                < 0x80 by {
                assert(encode_utf8(rest)[i] == bytes[i + 1]);
            }
            lemma_ascii_bytes_encode_ascii_text(rest);
            assert forall|i: int| 0 <= i < chars.len() implies (#[trigger] chars[i]) as u32 <= 0x7f
                && bytes[i] as int == chars[i] as u32 as int by {
                if i > 0 {
                    assert(chars[i] == rest[i - 1]);
                    assert(bytes[i] == encode_utf8(rest)[i - 1]);
                }
            }
        } else if has_width_2_encoding(c) {
            assert(leading_byte_width_2(c) >= 0x80) by (bit_vector);
        } else if has_width_3_encoding(c) {
            assert(leading_byte_width_3(c) >= 0x80) by (bit_vector);
        } else {
            assert(leading_byte_width_4(c) >= 0x80) by (bit_vector);
        }
    }
}

/// An ASCII character has the same number as a UTF-16 code unit.
proof fn lemma_ascii_unit(c: char)
    requires
        c as u32 <= 0x7f,
    ensures
        c as u16 as int == c as u32 as int,
{
}

/// The bytes of a name that has the shape of a leaf are its characters, and
/// its code units make a single path component.
proof fn lemma_leaf_shape_is_single_leaf(text: Seq<char>)
    requires
        has_leaf_shape(encode_utf8(text)),
    ensures
        is_single_leaf(wide_text(text)),
{
    let bytes = encode_utf8(text);
    assert forall|i: int| 0 <= i < bytes.len() implies #[trigger] bytes[i] < 0x80 by {
        if i > 0 {
            assert(is_name_byte(bytes[i]));
        }
    }
    lemma_ascii_bytes_encode_ascii_text(text);
    let leaf = wide_text(text);
    assert forall|i: int| 0 <= i < leaf.len() implies !is_separator(#[trigger] leaf[i]) by {
        lemma_ascii_unit(text[i]);
        assert(leaf[i] == text[i] as u16);
        assert(bytes[i] as int == text[i] as u32 as int);
        if i > 0 {
            assert(is_name_byte(bytes[i]));
        }
    }
    lemma_ascii_unit(text[0]);
    assert(leaf[0] == text[0] as u16);
    assert(bytes[0] as int == text[0] as u32 as int);
    assert(leaf[0] != 0x2e);
    if leaf =~= seq![0x2eu16] {
        assert(leaf[0] == 0x2e);
    }
    if leaf =~= seq![0x2eu16, 0x2eu16] {
        assert(leaf[0] == 0x2e);
    }
}

fn ascii_upper_byte(b: u8) -> (r: u8)
    ensures
        r == ascii_upper(b),
{
    if 0x61 <= b && b <= 0x7a {
        b - 32
    } else {
        b
    }
}

proof fn lemma_stem_of_prefix(b: Seq<u8>, k: int)
    requires
        0 <= k <= b.len(),
        forall|i: int| 0 <= i < k ==> b[i] != 0x2e,
        k == b.len() || b[k] == 0x2e,
    ensures
        stem(b) =~= b.take(k),
    decreases k,
{
    if k > 0 {
        let t = b.drop_first();
        assert forall|i: int| 0 <= i < k - 1 implies t[i] != 0x2e by {
            assert(t[i] == b[i + 1]);
        }
        lemma_stem_of_prefix(t, k - 1);
        assert(b.take(k) =~= seq![b[0]] + t.take(k - 1));
    }
}

/// Whether the stem of a name is a reserved Windows device name.
pub fn is_reserved_device_name(bytes: &[u8]) -> (r: bool)
    ensures
        r == is_reserved_device_name_spec(bytes@),
{
    let mut k: usize = 0;
    while k < bytes.len() && bytes[k] != 0x2e
        invariant
            0 <= k <= bytes@.len(),
            forall|i: int| 0 <= i < k ==> bytes@[i] != 0x2e,
        decreases bytes.len() - k,
    {
        k = k + 1;
    }
    proof {
        lemma_stem_of_prefix(bytes@, k as int);
    }
    let ghost s = bytes@.take(k as int);
    let ghost u = s.map_values(|b: u8| ascii_upper(b));
    if k == 3 {
        let a = ascii_upper_byte(bytes[0]);
        let b = ascii_upper_byte(bytes[1]);
        let c = ascii_upper_byte(bytes[2]);
        proof {
            assert(u[0] == a && u[1] == b && u[2] == c);
        }
        let r = (a == 0x43 && b == 0x4f && c == 0x4e) || (a == 0x50 && b == 0x52 && c == 0x4e)
            || (a == 0x41 && b == 0x55 && c == 0x58) || (a == 0x4e && b == 0x55 && c == 0x4c);
        proof {
            if r {
                assert(u =~= seq![a, b, c]);
            }
        }
        r
    } else if k == 4 {
        let a = ascii_upper_byte(bytes[0]);
        let b = ascii_upper_byte(bytes[1]);
        let c = ascii_upper_byte(bytes[2]);
        let d = ascii_upper_byte(bytes[3]);
        proof {
            assert(u[0] == a && u[1] == b && u[2] == c && u[3] == d);
        }
        ((a == 0x43 && b == 0x4f && c == 0x4d) || (a == 0x4c && b == 0x50 && c == 0x54)) && 0x31
            <= d && d <= 0x39
    } else {
        false
    }
}

fn is_ascii_alphanumeric_byte(b: u8) -> (r: bool)
    ensures
        r == is_ascii_alphanumeric(b),
{
    (0x30 <= b && b <= 0x39) || (0x41 <= b && b <= 0x5a) || (0x61 <= b && b <= 0x7a)
}

fn leaf_shape(bytes: &[u8]) -> (r: bool)
    requires
        bytes@.len() > 0,
    ensures
        r == has_leaf_shape(bytes@),
{
    if !is_ascii_alphanumeric_byte(bytes[0]) {
        return false;
    }
    let mut i: usize = 1;
    while i < bytes.len()
        invariant
            1 <= i <= bytes@.len(),
            forall|j: int| 1 <= j < i ==> is_name_byte(#[trigger] bytes@[j]),
        decreases bytes.len() - i,
    {
        let b = bytes[i];
        if !(is_ascii_alphanumeric_byte(b) || b == 0x2e || b == 0x5f || b == 0x2d) {
            return false;
        }
        i = i + 1;
    }
    bytes[bytes.len() - 1] != 0x2e
}

impl SubscriberName {
    pub closed spec fn text(&self) -> Seq<char> {
        self.name@
    }

    /// A subscriber name is one path component.
    #[verifier::type_invariant]
    spec fn is_one_leaf(self) -> bool {
        is_single_leaf(wide_text(self.name@))
    }

    /// Accepts a single leaf name; see `subscriber_name_verdict`.
    /// The longest name accepted, in bytes.
    pub const MAX_LEN: usize = 128;

    pub fn parse(raw: &str) -> (r: Result<Self, SubscriberNameError>)
        ensures
            match subscriber_name_verdict(raw.spec_bytes()) {
                Ok(()) => r matches Ok(name) && name.text() == raw@ && is_single_leaf(
                    wide_text(raw@),
                ),
                Err(e) => r == Err::<Self, SubscriberNameError>(e),
            },
    {
        let bytes = raw.as_bytes();
        if bytes.len() == 0 {
            return Err(SubscriberNameError::Empty);
        }
        if bytes.len() > MAX_SUBSCRIBER_NAME_LEN {
            return Err(SubscriberNameError::TooLong { len: bytes.len() });
        }
        if !leaf_shape(bytes) {
            return Err(SubscriberNameError::ForbiddenCharacter);
        }
        if is_reserved_device_name(bytes) {
            return Err(SubscriberNameError::ReservedDeviceName);
        }
        proof {
            lemma_leaf_shape_is_single_leaf(raw@);
        }
        Ok(SubscriberName { name: String::from_str(raw) })
    }

    pub fn as_str(&self) -> (r: &str)
        ensures
            r@ == self.text(),
            is_single_leaf(wide_text(r@)),
    {
        proof {
            use_type_invariant(self);
        }
        self.name.as_str()
    }

    /// The named-pipe path `\\.\pipe\<name>`.
    pub fn named_pipe_path(&self) -> (r: String)
        ensures
            r@ == "\\\\.\\pipe\\"@ + self.text(),
    {
        let mut path = String::from_str("\\\\.\\pipe\\");
        path.append(self.name.as_str());
        path
    }
}

/// Per-subscriber delivery options.
#[derive(Clone, Copy, Debug, Default, PartialEq, Eq, Structural)]
pub struct SubscribeOptions {
    pub filter_state_changes: bool,
}

/// Whether a notification goes to a subscriber: always, unless it asked to
/// hear only of state changes and this notification is neither one nor an
/// override event.
pub fn should_notify(
    options: Option<SubscribeOptions>,
    state_has_been_modified: bool,
    is_override_event: bool,
) -> (r: bool)
    ensures
        r == (match options {
            Some(o) => !o.filter_state_changes,
            None => true,
        } || state_has_been_modified || is_override_event),
{
    let filter = match options {
        Some(o) => o.filter_state_changes,
        None => false,
    };
    !filter || state_has_been_modified || is_override_event
}

/// The outcome of removing a recorded socket file.
#[derive(Clone, Copy, Debug, PartialEq, Eq, Structural)]
pub enum RemoveOutcome {
    Removed,
    AlreadyGone,
}

#[derive(Clone, Debug, PartialEq, Eq, Structural)]
pub enum SubscriberAdmitError {
    ReparseEscape,
    NotAFile,
}

#[derive(Clone, Debug, PartialEq, Eq)]
pub enum SubscriberCleanupError {
    NotManagerRecorded,
    EscapesDataDir,
    ReparseEscape,
    NotAFile,
    Io(String),
}

pub open spec fn ascii_wide_lower_spec(unit: u16) -> u16 {
    if 0x41 <= unit <= 0x5a {
        (unit + 32) as u16
    } else {
        unit
    }
}

/// Lower-cases an ASCII capital in a UTF-16 code unit.
pub fn ascii_wide_lower(unit: u16) -> (r: u16)
    ensures
        r == ascii_wide_lower_spec(unit),
{
    if 0x41 <= unit && unit <= 0x5a {
        unit + 32
    } else {
        unit
    }
}

pub fn wide_eq_ignore_ascii_case(left: u16, right: u16) -> (r: bool)
    ensures
        r == (ascii_wide_lower_spec(left) == ascii_wide_lower_spec(right)),
{
    if left == right {
        return true;
    }
    ascii_wide_lower(left) == ascii_wide_lower(right)
}

pub open spec fn wide_eq_ignore_ascii_case_spec(left: Seq<u16>, right: Seq<u16>) -> bool {
    left.len() == right.len() && forall|i: int|
        0 <= i < left.len() ==> ascii_wide_lower_spec(#[trigger] left[i]) == ascii_wide_lower_spec(
            right[i],
        )
}

/// Compares `left` with the first `left.len()` units of `right`, ignoring ASCII case.
fn prefix_eq_ignore_ascii_case_wide(left: &[u16], right: &[u16]) -> (r: bool)
    requires
        left@.len() <= right@.len(),
    ensures
        r == wide_eq_ignore_ascii_case_spec(left@, right@.take(left@.len() as int)),
{
    let mut i: usize = 0;
    while i < left.len()
        invariant
            left@.len() <= right@.len(),
            0 <= i <= left@.len(),
            forall|j: int|
                0 <= j < i ==> ascii_wide_lower_spec(#[trigger] left@[j]) == ascii_wide_lower_spec(
                    right@[j],
                ),
        decreases left.len() - i,
    {
        if !wide_eq_ignore_ascii_case(left[i], right[i]) {
            return false;
        }
        i = i + 1;
    }
    true
}

pub fn eq_ignore_ascii_case_wide(left: &[u16], right: &[u16]) -> (r: bool)
    ensures
        r == wide_eq_ignore_ascii_case_spec(left@, right@),
{
    if left.len() != right.len() {
        return false;
    }
    let r = prefix_eq_ignore_ascii_case_wide(left, right);
    proof {
        assert(right@.take(left@.len() as int) =~= right@);
    }
    r
}

/// Whether `child` names an entry below `parent`, both canonical UTF-16 paths:
/// `parent` is a prefix of `child` up to ASCII case and is followed by `\` or `/`.
pub open spec fn is_canonical_child_spec(parent: Seq<u16>, child: Seq<u16>) -> bool {
    &&& child.len() > parent.len()
    &&& wide_eq_ignore_ascii_case_spec(parent, child.take(parent.len() as int))
    &&& (child[parent.len() as int] == 0x5c || child[parent.len() as int] == 0x2f)
}

pub fn is_canonical_child(parent: &[u16], child: &[u16]) -> (r: bool)
    ensures
        r == is_canonical_child_spec(parent@, child@),
{
    if child.len() <= parent.len() {
        return false;
    }
    if !prefix_eq_ignore_ascii_case_wide(parent, child) {
        return false;
    }
    let next = child[parent.len()];
    next == 0x5c || next == 0x2f
}

/// A path separator, `\` or `/`.
pub open spec fn is_separator(unit: u16) -> bool {
    unit == 0x5c || unit == 0x2f
}

/// The code units of a text, one per character: for the ASCII text of a
/// subscriber name, its UTF-16 encoding.
pub open spec fn wide_text(text: Seq<char>) -> Seq<u16> {
    text.map_values(|c: char| c as u16)
}

/// `leaf` appended to `dir` as a relative component: with a `\` between them
/// unless `dir` is empty or already ends in a separator.
pub open spec fn joined_path(dir: Seq<u16>, leaf: Seq<u16>) -> Seq<u16> {
    if dir.len() == 0 || is_separator(dir.last()) {
        dir + leaf
    } else {
        dir + seq![0x5cu16] + leaf
    }
}

/// Where the leaf of a path joined onto `dir` begins.
pub open spec fn leaf_start(dir: Seq<u16>) -> int {
    if dir.len() == 0 || is_separator(dir.last()) {
        dir.len() as int
    } else {
        dir.len() + 1int
    }
}

/// One path component: nonempty, without a separator, and neither `.` nor `..`.
pub open spec fn is_single_leaf(leaf: Seq<u16>) -> bool {
    &&& leaf.len() > 0
    &&& forall|i: int| 0 <= i < leaf.len() ==> !is_separator(#[trigger] leaf[i])
    &&& leaf != seq![0x2eu16]
    &&& leaf != seq![0x2eu16, 0x2eu16]
}

/// Whether `child` is `parent` with exactly one more component joined onto it.
pub open spec fn is_lexical_child_spec(parent: Seq<u16>, child: Seq<u16>) -> bool {
    &&& child.len() > leaf_start(parent)
    &&& child.take(parent.len() as int) == parent
    &&& (leaf_start(parent) > parent.len() ==> is_separator(child[parent.len() as int]))
    &&& is_single_leaf(child.skip(leaf_start(parent)))
}

/// A path joined from a directory and a single leaf is a lexical child of the
/// directory, and nothing else joined onto it is.
pub proof fn lemma_joined_leaf_is_lexical_child(dir: Seq<u16>, leaf: Seq<u16>)
    ensures
        is_lexical_child_spec(dir, joined_path(dir, leaf)) <==> is_single_leaf(leaf),
{
    let child = joined_path(dir, leaf);
    let start = leaf_start(dir);
    assert(child.take(dir.len() as int) =~= dir);
    assert(child.skip(start) =~= leaf);
    if start > dir.len() {
        assert(child[dir.len() as int] == 0x5cu16);
    }
}

/// Appends a subscriber name's text to a directory.
pub fn join_leaf(dir: &[u16], leaf: &str) -> (r: Vec<u16>)
    ensures
        r@ == joined_path(dir@, wide_text(leaf@)),
{
    let mut r: Vec<u16> = Vec::new();
    let mut i: usize = 0;
    while i < dir.len()
        invariant
            0 <= i <= dir@.len(),
            r@ == dir@.take(i as int),
        decreases dir.len() - i,
    {
        r.push(dir[i]);
        i = i + 1;
        proof {
            assert(r@ =~= dir@.take(i as int));
        }
    }
    proof {
        assert(dir@.take(i as int) =~= dir@);
    }
    if dir.len() > 0 && !(dir[dir.len() - 1] == 0x5c || dir[dir.len() - 1] == 0x2f) {
        r.push(0x5c);
    }
    let ghost base = r@;
    let n = leaf.unicode_len();
    let mut k: usize = 0;
    while k < n
        invariant
            n == leaf@.len(),
            0 <= k <= n,
            r@ == base + wide_text(leaf@).take(k as int),
        decreases n - k,
    {
        let c = leaf.get_char(k);
        r.push(c as u16);
        k = k + 1;
        proof {
            assert(r@ =~= base + wide_text(leaf@).take(k as int));
        }
    }
    proof {
        assert(wide_text(leaf@).take(k as int) =~= wide_text(leaf@));
        if dir@.len() == 0 || is_separator(dir@.last()) {
            assert(base =~= dir@);
        } else {
            assert(base =~= dir@ + seq![0x5cu16]);
        }
        assert(r@ =~= joined_path(dir@, wide_text(leaf@)));
    }
    r
}

#[verifier::spinoff_prover]
pub fn is_lexical_child(parent: &[u16], child: &[u16]) -> (r: bool)
    ensures
        r == is_lexical_child_spec(parent@, child@),
{
    let n = parent.len();
    let start: usize = if n == 0 || parent[n - 1] == 0x5c || parent[n - 1] == 0x2f {
        n
    } else {
        if child.len() <= n || !(child[n] == 0x5c || child[n] == 0x2f) {
            return false;
        }
        n + 1
    };
    if child.len() <= start {
        return false;
    }
    let mut i: usize = 0;
    while i < n
        invariant
            n == parent@.len(),
            n < child@.len(),
            start < child@.len(),
            start as int == leaf_start(parent@),
            start > n ==> is_separator(child@[n as int]),
            0 <= i <= n,
            forall|j: int| 0 <= j < i ==> parent@[j] == child@[j],
        decreases n - i,
    {
        if parent[i] != child[i] {
            proof {
                assert(child@.take(n as int)[i as int] != parent@[i as int]);
            }
            return false;
        }
        i = i + 1;
    }
    proof {
        assert(child@.take(n as int) =~= parent@);
    }
    let leaf_len = child.len() - start;
    let ghost leaf = child@.skip(start as int);
    let mut k: usize = start;
    while k < child.len()
        invariant
            start <= k <= child@.len(),
            start < child@.len(),
            n == parent@.len(),
            start as int == leaf_start(parent@),
            child@.take(n as int) == parent@,
            start > n ==> is_separator(child@[n as int]),
            leaf == child@.skip(start as int),
            forall|j: int| start <= j < k ==> !is_separator(#[trigger] child@[j]),
        decreases child.len() - k,
    {
        if child[k] == 0x5c || child[k] == 0x2f {
            proof {
                assert(leaf[k - start] == child@[k as int]);
                assert(is_separator(leaf[k - start]));
            }
            return false;
        }
        k = k + 1;
    }
    proof {
        assert forall|j: int| 0 <= j < leaf.len() implies !is_separator(#[trigger] leaf[j]) by {
            assert(leaf[j] == child@[start + j]);
        }
    }
    if leaf_len == 1 && child[start] == 0x2e {
        proof {
            assert(leaf =~= seq![0x2eu16]);
        }
        return false;
    }
    if leaf_len == 2 && child[start] == 0x2e && child[start + 1] == 0x2e {
        proof {
            assert(leaf =~= seq![0x2eu16, 0x2eu16]);
        }
        return false;
    }
    proof {
        if leaf_len == 1 {
            assert(leaf[0] != seq![0x2eu16][0]);
        }
        if leaf_len == 2 {
            assert(leaf[0] != 0x2eu16 || leaf[1] != 0x2eu16);
        }
    }
    true
}

/// Whether a symbolic link leaves the data directory, judged on the canonical
/// forms of the directory and of the link's target; a form that did not
/// resolve counts as leaving.
pub open spec fn link_escapes(resolved_dir: Option<Seq<u16>>, resolved_path: Option<Seq<u16>>) -> bool {
    match (resolved_dir, resolved_path) {
        (Some(dir), Some(path)) => !is_canonical_child_spec(dir, path),
        _ => true,
    }
}

pub open spec fn units_of(v: Option<Vec<u16>>) -> Option<Seq<u16>> {
    match v {
        Some(u) => Some(u@),
        None => None,
    }
}

/// What the file system shows at a subscriber path, without following a
/// symbolic link there.
#[derive(Clone, Debug, PartialEq, Eq)]
pub enum ExistingEntry {
    /// Nothing is there.
    Missing,
    /// The entry could not be inspected, for the reason given.
    Unreadable(String),
    Directory,
    /// A file, or a reparse point that is not a symbolic link, such as a socket.
    File,
    /// A symbolic link, with the canonical forms of the data directory and of
    /// the link, each where it resolved.
    SymbolicLink { resolved_dir: Option<Vec<u16>>, resolved_path: Option<Vec<u16>> },
}

/// Whether an entry is a symbolic link that leaves the data directory.
pub open spec fn escapes_spec(entry: ExistingEntry) -> bool {
    match entry {
        ExistingEntry::SymbolicLink { resolved_dir, resolved_path } => link_escapes(
            units_of(resolved_dir),
            units_of(resolved_path),
        ),
        _ => false,
    }
}

fn escapes(entry: &ExistingEntry) -> (r: bool)
    ensures
        r == escapes_spec(*entry),
{
    match entry {
        ExistingEntry::SymbolicLink { resolved_dir, resolved_path } => match (resolved_dir, resolved_path) {
            (Some(dir), Some(path)) => !is_canonical_child(dir.as_slice(), path.as_slice()),
            _ => true,
        },
        _ => false,
    }
}

/// Whether a subscriber may take a path, given what is already there: not a
/// directory, and not a link out of the data directory.
pub open spec fn admission_of(entry: ExistingEntry) -> Result<(), SubscriberAdmitError> {
    match entry {
        ExistingEntry::Directory => Err(SubscriberAdmitError::NotAFile),
        _ => if escapes_spec(entry) {
            Err(SubscriberAdmitError::ReparseEscape)
        } else {
            Ok(())
        },
    }
}

/// What removing a recorded socket file comes to before anything is deleted.
#[derive(Clone, Copy, Debug, PartialEq, Eq, Structural)]
pub enum RemovalStep {
    /// There is nothing to delete.
    AlreadyGone,
    /// The entry is the subscriber's own and is to be deleted.
    Delete,
}

/// How deleting a file went.
#[derive(Clone, Debug, PartialEq, Eq)]
pub enum DeletionResult {
    Deleted,
    NotFound,
    Failed(String),
}

/// The decision on removing `recorded` below `data_dir`, given what is there.
pub open spec fn removal_of(data_dir: Seq<u16>, recorded: Seq<u16>, entry: ExistingEntry) -> Result<
    RemovalStep,
    SubscriberCleanupError,
> {
    if !is_lexical_child_spec(data_dir, recorded) {
        Err(SubscriberCleanupError::EscapesDataDir)
    } else {
        match entry {
            ExistingEntry::Missing => Ok(RemovalStep::AlreadyGone),
            ExistingEntry::Unreadable(message) => Err(SubscriberCleanupError::Io(message)),
            ExistingEntry::Directory => Err(SubscriberCleanupError::NotAFile),
            _ => if escapes_spec(entry) {
                Err(SubscriberCleanupError::ReparseEscape)
            } else {
                Ok(RemovalStep::Delete)
            },
        }
    }
}

/// Decides whether `recorded` may be deleted: it must be one leaf below the
/// data directory, and there must be a file there that does not lead out.
pub fn remove_owned_leaf(data_dir: &[u16], recorded: &[u16], entry: &ExistingEntry) -> (r: Result<
    RemovalStep,
    SubscriberCleanupError,
>)
    ensures
        r == removal_of(data_dir@, recorded@, *entry),
{
    if !is_lexical_child(data_dir, recorded) {
        return Err(SubscriberCleanupError::EscapesDataDir);
    }
    match entry {
        ExistingEntry::Missing => Ok(RemovalStep::AlreadyGone),
        ExistingEntry::Unreadable(message) => Err(SubscriberCleanupError::Io(message.clone())),
        ExistingEntry::Directory => Err(SubscriberCleanupError::NotAFile),
        _ => if escapes(entry) {
            Err(SubscriberCleanupError::ReparseEscape)
        } else {
            Ok(RemovalStep::Delete)
        },
    }
}

/// Cleanup can be repeated: once a socket file recorded one leaf below the
/// data directory is gone, deciding its removal again gives `AlreadyGone`.
pub proof fn lemma_cleanup_can_be_repeated(data_dir: Seq<u16>, leaf: Seq<u16>)
    requires
        is_single_leaf(leaf),
    ensures
        removal_of(data_dir, joined_path(data_dir, leaf), ExistingEntry::Missing) == Ok::<
            RemovalStep,
            SubscriberCleanupError,
        >(RemovalStep::AlreadyGone),
{
    lemma_joined_leaf_is_lexical_child(data_dir, leaf);
}

/// The outcome of a deletion: a file that vanished meanwhile is already gone.
pub fn deletion_outcome(result: DeletionResult) -> (r: Result<RemoveOutcome, SubscriberCleanupError>)
    ensures
        r == (match result {
            DeletionResult::Deleted => Ok::<RemoveOutcome, SubscriberCleanupError>(RemoveOutcome::Removed),
            DeletionResult::NotFound => Ok(RemoveOutcome::AlreadyGone),
            DeletionResult::Failed(message) => Err(SubscriberCleanupError::Io(message)),
        }),
{
    match result {
        DeletionResult::Deleted => Ok(RemoveOutcome::Removed),
        DeletionResult::NotFound => Ok(RemoveOutcome::AlreadyGone),
        DeletionResult::Failed(message) => Err(SubscriberCleanupError::Io(message)),
    }
}

/// A manager-created socket identity: a parsed name and the path the manager
/// joined for it under its data directory, never a raw caller path.
#[derive(Clone, Debug, PartialEq, Eq)]
pub struct SubscriberSocketPath {
    name: SubscriberName,
    path: Vec<u16>,
}

impl SubscriberSocketPath {
    pub closed spec fn name_spec(&self) -> SubscriberName {
        self.name
    }

    pub closed spec fn path_units(&self) -> Seq<u16> {
        self.path@
    }

    /// The path a subscriber name is given under a data directory.
    pub fn path_for(data_dir: &[u16], name: &SubscriberName) -> (r: Vec<u16>)
        ensures
            r@ == joined_path(data_dir@, wide_text(name.text())),
    {
        join_leaf(data_dir, name.as_str())
    }

    /// Records the socket of `name` under `data_dir`, unless what is already
    /// at that path forbids it.
    pub fn admit_socket(data_dir: &[u16], name: SubscriberName, existing: &ExistingEntry) -> (r: Result<
        Self,
        SubscriberAdmitError,
    >)
        ensures
            match admission_of(*existing) {
                Ok(()) => r matches Ok(p) && p.name_spec() == name && p.path_units() == joined_path(
                    data_dir@,
                    wide_text(name.text()),
                ) && is_lexical_child_spec(data_dir@, p.path_units()),
                Err(e) => r == Err::<Self, SubscriberAdmitError>(e),
            },
    {
        proof {
            use_type_invariant(&name);
            lemma_joined_leaf_is_lexical_child(data_dir@, wide_text(name.text()));
        }
        let path = Self::path_for(data_dir, &name);
        match existing {
            ExistingEntry::Directory => {
                return Err(SubscriberAdmitError::NotAFile);
            },
            _ => {},
        }
        if escapes(existing) {
            return Err(SubscriberAdmitError::ReparseEscape);
        }
        Ok(SubscriberSocketPath { name, path })
    }

    pub fn name(&self) -> (r: &SubscriberName)
        ensures
            *r == self.name_spec(),
    {
        &self.name
    }

    pub fn path(&self) -> (r: &[u16])
        ensures
            r@ == self.path_units(),
    {
        self.path.as_slice()
    }

    /// Decides on removing the recorded socket file: only the path this
    /// identity recorded for its name under `data_dir` may go.
    pub fn remove_file(&self, data_dir: &[u16], existing: &ExistingEntry) -> (r: Result<
        RemovalStep,
        SubscriberCleanupError,
    >)
        ensures
            self.path_units() != joined_path(data_dir@, wide_text(self.name_spec().text())) ==> r
                == Err::<RemovalStep, SubscriberCleanupError>(
                SubscriberCleanupError::NotManagerRecorded,
            ),
            self.path_units() == joined_path(data_dir@, wide_text(self.name_spec().text())) ==> r
                == removal_of(data_dir@, self.path_units(), *existing),
            self.path_units() == joined_path(data_dir@, wide_text(self.name_spec().text())) ==> {
                &&& *existing is Missing ==> r == Ok::<RemovalStep, SubscriberCleanupError>(
                    RemovalStep::AlreadyGone,
                )
                &&& *existing is File ==> r == Ok::<RemovalStep, SubscriberCleanupError>(
                    RemovalStep::Delete,
                )
            },
    {
        proof {
            use_type_invariant(&self.name);
            lemma_joined_leaf_is_lexical_child(data_dir@, wide_text(self.name.text()));
        }
        let expected = Self::path_for(data_dir, &self.name);
        if !same_units(self.path.as_slice(), expected.as_slice()) {
            return Err(SubscriberCleanupError::NotManagerRecorded);
        }
        remove_owned_leaf(data_dir, self.path.as_slice(), existing)
    }
}

fn same_units(a: &[u16], b: &[u16]) -> (r: bool)
    ensures
        r == (a@ == b@),
{
    if a.len() != b.len() {
        return false;
    }
    let mut i: usize = 0;
    while i < a.len()
        invariant
            a@.len() == b@.len(),
            0 <= i <= a@.len(),
            forall|j: int| 0 <= j < i ==> a@[j] == b@[j],
        decreases a.len() - i,
    {
        if a[i] != b[i] {
            return false;
        }
        i = i + 1;
    }
    proof {
        assert(a@ =~= b@);
    }
    true
}

impl SubscriberSocketPath {
    /// A copy of this identity.
    pub fn duplicate(&self) -> (r: Self)
        ensures
            r.name_spec() == self.name_spec(),
            r.path_units() == self.path_units(),
    {
        let mut path: Vec<u16> = Vec::new();
        let mut i: usize = 0;
        while i < self.path.len()
            invariant
                0 <= i <= self.path@.len(),
                path@ == self.path@.take(i as int),
            decreases self.path.len() - i,
        {
            path.push(self.path[i]);
            i = i + 1;
            proof {
                assert(path@ =~= self.path@.take(i as int));
            }
        }
        proof {
            assert(self.path@.take(i as int) =~= self.path@);
        }
        SubscriberSocketPath { name: self.name.clone(), path }
    }
}

impl SubscriberName {
    pub fn same(&self, other: &Self) -> (r: bool)
        ensures
            r == (self.text() == other.text()),
    {
        self.name.eq(&other.name)
    }
}

/// A registered socket subscriber: its recorded identity and the options it
/// subscribed with.
pub type SocketSubscription = (SubscriberSocketPath, Option<SubscribeOptions>);

pub open spec fn subscription_key(entry: SocketSubscription) -> Seq<char> {
    entry.0.name_spec().text()
}

/// No two subscriptions under one name.
pub open spec fn keys_unique(entries: Seq<SocketSubscription>) -> bool {
    forall|i: int, j: int|
        0 <= i < entries.len() && 0 <= j < entries.len() && i != j ==> subscription_key(
            #[trigger] entries[i],
        ) != subscription_key(#[trigger] entries[j])
}

pub open spec fn has_key(entries: Seq<SocketSubscription>, key: Seq<char>) -> bool {
    exists|i: int| 0 <= i < entries.len() && subscription_key(#[trigger] entries[i]) == key
}

/// The subscription registered under a name.
pub open spec fn subscription_for(entries: Seq<SocketSubscription>, key: Seq<char>) -> Option<
    SocketSubscription,
> {
    if has_key(entries, key) {
        Some(
            entries[choose|i: int|
                0 <= i < entries.len() && subscription_key(#[trigger] entries[i]) == key],
        )
    } else {
        None
    }
}

proof fn lemma_subscription_at(entries: Seq<SocketSubscription>, i: int)
    requires
        keys_unique(entries),
        0 <= i < entries.len(),
    ensures
        subscription_for(entries, subscription_key(entries[i])) == Some(entries[i]),
{
    let key = subscription_key(entries[i]);
    assert(has_key(entries, key));
    let j = choose|j: int| 0 <= j < entries.len() && subscription_key(#[trigger] entries[j]) == key;
    if j != i {
        assert(subscription_key(entries[i]) != subscription_key(entries[j]));
    }
}

proof fn lemma_subscription_pushed(entries: Seq<SocketSubscription>, entry: SocketSubscription, key: Seq<char>)
    requires
        keys_unique(entries),
        !has_key(entries, subscription_key(entry)),
    ensures
        keys_unique(entries.push(entry)),
        subscription_for(entries.push(entry), key) == if key == subscription_key(entry) {
            Some(entry)
        } else {
            subscription_for(entries, key)
        },
{
    let pushed = entries.push(entry);
    assert forall|i: int, j: int|
        0 <= i < pushed.len() && 0 <= j < pushed.len() && i != j implies subscription_key(
            #[trigger] pushed[i],
        ) != subscription_key(#[trigger] pushed[j]) by {
        if i == entries.len() {
            assert(subscription_key(entries[j]) != subscription_key(entry));
        } else if j == entries.len() {
            assert(subscription_key(entries[i]) != subscription_key(entry));
        } else {
            assert(pushed[i] == entries[i] && pushed[j] == entries[j]);
        }
    }
    if key == subscription_key(entry) {
        lemma_subscription_at(pushed, entries.len() as int);
    } else if has_key(entries, key) {
        let i = choose|i: int| 0 <= i < entries.len() && subscription_key(#[trigger] entries[i]) == key;
        lemma_subscription_at(entries, i);
        assert(pushed[i] == entries[i]);
        lemma_subscription_at(pushed, i);
    } else {
        assert forall|i: int| 0 <= i < pushed.len() implies subscription_key(#[trigger] pushed[i]) != key by {
            if i < entries.len() {
                assert(pushed[i] == entries[i]);
            }
        }
    }
}

proof fn lemma_subscription_replaced(entries: Seq<SocketSubscription>, i: int, entry: SocketSubscription, key: Seq<char>)
    requires
        keys_unique(entries),
        0 <= i < entries.len(),
        subscription_key(entries[i]) == subscription_key(entry),
    ensures
        keys_unique(entries.update(i, entry)),
        subscription_for(entries.update(i, entry), key) == if key == subscription_key(entry) {
            Some(entry)
        } else {
            subscription_for(entries, key)
        },
{
    let updated = entries.update(i, entry);
    assert forall|a: int, b: int|
        0 <= a < updated.len() && 0 <= b < updated.len() && a != b implies subscription_key(
            #[trigger] updated[a],
        ) != subscription_key(#[trigger] updated[b]) by {
        assert(subscription_key(updated[a]) == subscription_key(entries[a]));
        assert(subscription_key(updated[b]) == subscription_key(entries[b]));
    }
    if key == subscription_key(entry) {
        lemma_subscription_at(updated, i);
    } else if has_key(entries, key) {
        let j = choose|j: int| 0 <= j < entries.len() && subscription_key(#[trigger] entries[j]) == key;
        lemma_subscription_at(entries, j);
        assert(updated[j] == entries[j]);
        lemma_subscription_at(updated, j);
    } else {
        assert forall|j: int| 0 <= j < updated.len() implies subscription_key(#[trigger] updated[j]) != key by {
            assert(subscription_key(updated[j]) == subscription_key(entries[j]));
        }
    }
}

proof fn lemma_subscription_removed(entries: Seq<SocketSubscription>, i: int, key: Seq<char>)
    requires
        keys_unique(entries),
        0 <= i < entries.len(),
    ensures
        keys_unique(entries.remove(i)),
        subscription_for(entries.remove(i), key) == if key == subscription_key(entries[i]) {
            None
        } else {
            subscription_for(entries, key)
        },
{
    let removed = entries.remove(i);
    assert forall|a: int| 0 <= a < removed.len() implies #[trigger] removed[a] == (if a < i {
        entries[a]
    } else {
        entries[a + 1]
    }) by {}
    assert forall|a: int, b: int|
        0 <= a < removed.len() && 0 <= b < removed.len() && a != b implies subscription_key(
            #[trigger] removed[a],
        ) != subscription_key(#[trigger] removed[b]) by {
        let a2 = if a < i { a } else { a + 1 };
        let b2 = if b < i { b } else { b + 1 };
        assert(removed[a] == entries[a2] && removed[b] == entries[b2]);
    }
    if key == subscription_key(entries[i]) {
        assert forall|a: int| 0 <= a < removed.len() implies subscription_key(#[trigger] removed[a]) != key by {
            let a2 = if a < i { a } else { a + 1 };
            assert(removed[a] == entries[a2]);
        }
    } else if has_key(entries, key) {
        let j = choose|j: int| 0 <= j < entries.len() && subscription_key(#[trigger] entries[j]) == key;
        lemma_subscription_at(entries, j);
        let j2 = if j < i { j } else { j - 1 };
        assert(removed[j2] == entries[j]);
        lemma_subscription_at(removed, j2);
    } else {
        assert forall|a: int| 0 <= a < removed.len() implies subscription_key(#[trigger] removed[a]) != key by {
            let a2 = if a < i { a } else { a + 1 };
            assert(removed[a] == entries[a2]);
        }
    }
}

/// The socket subscriptions to notify of an event, in registration order.
pub open spec fn recipients_of(entries: Seq<SocketSubscription>, state_has_been_modified: bool, is_override_event: bool) -> Seq<SubscriberSocketPath>
    decreases entries.len(),
{
    if entries.len() == 0 {
        Seq::empty()
    } else {
        let rest = recipients_of(entries.drop_last(), state_has_been_modified, is_override_event);
        let last = entries.last();
        if (match last.1 {
            Some(o) => !o.filter_state_changes,
            None => true,
        } || state_has_been_modified || is_override_event) {
            rest.push(last.0)
        } else {
            rest
        }
    }
}

/// The socket subscribers of the manager, each registered once under its name.
#[derive(Debug)]
pub struct SubscriberRegistry {
    sockets: Vec<SocketSubscription>,
}

impl SubscriberRegistry {
    pub closed spec fn subscriptions(&self) -> Seq<SocketSubscription> {
        self.sockets@
    }

    /// No two subscriptions are registered under one name.
    #[verifier::type_invariant]
    spec fn names_are_unique(self) -> bool {
        keys_unique(self.sockets@)
    }

    /// The identity recorded for a subscriber name.
    pub open spec fn socket_of(&self, key: Seq<char>) -> Option<SubscriberSocketPath> {
        match subscription_for(self.subscriptions(), key) {
            Some(entry) => Some(entry.0),
            None => None,
        }
    }

    /// The options a subscriber registered with.
    pub open spec fn options_of(&self, key: Seq<char>) -> Option<SubscribeOptions> {
        match subscription_for(self.subscriptions(), key) {
            Some(entry) => entry.1,
            None => None,
        }
    }

    pub fn new() -> (r: Self)
        ensures
            r.subscriptions().len() == 0,
            forall|key: Seq<char>| r.socket_of(key) is None,
    {
        SubscriberRegistry { sockets: Vec::new() }
    }

    fn position(&self, name: &SubscriberName) -> (r: Option<usize>)
        ensures
            r matches Some(i) ==> i < self.subscriptions().len() && subscription_key(
                self.subscriptions()[i as int],
            ) == name.text(),
            r is None ==> !has_key(self.subscriptions(), name.text()),
    {
        let mut i: usize = 0;
        while i < self.sockets.len()
            invariant
                0 <= i <= self.sockets@.len(),
                forall|j: int| 0 <= j < i ==> subscription_key(#[trigger] self.sockets@[j]) != name.text(),
            decreases self.sockets.len() - i,
        {
            if self.sockets[i].0.name().same(name) {
                return Some(i);
            }
            i = i + 1;
        }
        None
    }

    /// Records the socket of `name` under `data_dir` with its options, in place
    /// of any earlier registration under that name, unless what is at the
    /// socket's path forbids it.
    pub fn add_socket(
        &mut self,
        data_dir: &[u16],
        name: SubscriberName,
        options: Option<SubscribeOptions>,
        existing: &ExistingEntry,
    ) -> (r: Result<(), SubscriberAdmitError>)
        ensures
            match admission_of(*existing) {
                Err(e) => r == Err::<(), SubscriberAdmitError>(e) && final(self).subscriptions()
                    == old(self).subscriptions(),
                Ok(()) => r is Ok && (final(self).socket_of(name.text()) matches Some(p)
                    && p.name_spec() == name && p.path_units() == joined_path(
                    data_dir@,
                    wide_text(name.text()),
                )) && final(self).options_of(name.text()) == options,
            },
            forall|key: Seq<char>|
                key != name.text() ==> final(self).socket_of(key) == old(self).socket_of(key)
                    && final(self).options_of(key) == old(self).options_of(key),
    {
        proof {
            use_type_invariant(&*self);
        }
        let endpoint = match SubscriberSocketPath::admit_socket(data_dir, name, existing) {
            Ok(endpoint) => endpoint,
            Err(e) => {
                return Err(e);
            },
        };
        let ghost old_entries = self.sockets@;
        let ghost entry = (endpoint, options);
        match self.position(endpoint.name()) {
            Some(i) => {
                proof {
                    assert forall|key: Seq<char>| true implies subscription_for(
                        old_entries.update(i as int, entry),
                        key,
                    ) == (if key == subscription_key(entry) {
                        Some(entry)
                    } else {
                        subscription_for(old_entries, key)
                    }) by {
                        lemma_subscription_replaced(old_entries, i as int, entry, key);
                    }
                    lemma_subscription_replaced(old_entries, i as int, entry, name.text());
                }
                let mut sockets: Vec<SocketSubscription> = Vec::new();
                std::mem::swap(&mut sockets, &mut self.sockets);
                sockets.set(i, (endpoint, options));
                self.sockets = sockets;
            },
            None => {
                proof {
                    assert forall|key: Seq<char>| true implies subscription_for(
                        old_entries.push(entry),
                        key,
                    ) == (if key == subscription_key(entry) {
                        Some(entry)
                    } else {
                        subscription_for(old_entries, key)
                    }) by {
                        lemma_subscription_pushed(old_entries, entry, key);
                    }
                    lemma_subscription_pushed(old_entries, entry, name.text());
                }
                let mut sockets: Vec<SocketSubscription> = Vec::new();
                std::mem::swap(&mut sockets, &mut self.sockets);
                sockets.push((endpoint, options));
                self.sockets = sockets;
            },
        }
        Ok(())
    }

    /// Forgets a subscriber and hands back the identity recorded for it, so
    /// that its socket file can be removed; nothing is recorded under the name
    /// afterwards.
    pub fn take_socket(&mut self, name: &SubscriberName) -> (r: Option<SubscriberSocketPath>)
        ensures
            r == old(self).socket_of(name.text()),
            final(self).socket_of(name.text()) is None,
            final(self).options_of(name.text()) is None,
            forall|key: Seq<char>|
                key != name.text() ==> final(self).socket_of(key) == old(self).socket_of(key)
                    && final(self).options_of(key) == old(self).options_of(key),
    {
        proof {
            use_type_invariant(&*self);
        }
        let ghost old_entries = self.sockets@;
        match self.position(name) {
            None => {
                proof {
                    assert(!has_key(old_entries, name.text()));
                }
                None
            },
            Some(i) => {
                proof {
                    lemma_subscription_at(old_entries, i as int);
                    assert forall|key: Seq<char>| true implies subscription_for(
                        old_entries.remove(i as int),
                        key,
                    ) == (if key == subscription_key(old_entries[i as int]) {
                        None
                    } else {
                        subscription_for(old_entries, key)
                    }) by {
                        lemma_subscription_removed(old_entries, i as int, key);
                    }
                    lemma_subscription_removed(old_entries, i as int, name.text());
                }
                let mut sockets: Vec<SocketSubscription> = Vec::new();
                std::mem::swap(&mut sockets, &mut self.sockets);
                let (endpoint, _) = sockets.remove(i);
                self.sockets = sockets;
                Some(endpoint)
            },
        }
    }

    /// Forgets a subscriber.
    pub fn remove_socket(&mut self, name: &SubscriberName)
        ensures
            final(self).socket_of(name.text()) is None,
            final(self).options_of(name.text()) is None,
            forall|key: Seq<char>|
                key != name.text() ==> final(self).socket_of(key) == old(self).socket_of(key)
                    && final(self).options_of(key) == old(self).options_of(key),
    {
        let _ = self.take_socket(name);
    }

    pub fn contains_socket(&self, name: &SubscriberName) -> (r: bool)
        ensures
            r == self.socket_of(name.text()) is Some,
    {
        proof {
            use_type_invariant(self);
        }
        match self.position(name) {
            Some(i) => {
                proof {
                    lemma_subscription_at(self.subscriptions(), i as int);
                }
                true
            },
            None => false,
        }
    }

    /// The recorded socket paths, in registration order.
    pub fn socket_paths(&self) -> (r: Vec<Vec<u16>>)
        ensures
            r@.len() == self.subscriptions().len(),
            forall|i: int| 0 <= i < r@.len() ==> (#[trigger] r@[i])@ == self.subscriptions()[i].0.path_units(),
    {
        let mut r: Vec<Vec<u16>> = Vec::new();
        let mut i: usize = 0;
        while i < self.sockets.len()
            invariant
                0 <= i <= self.sockets@.len(),
                r@.len() == i,
                forall|j: int| 0 <= j < i ==> (#[trigger] r@[j])@ == self.sockets@[j].0.path_units(),
            decreases self.sockets.len() - i,
        {
            let copy = self.sockets[i].0.duplicate();
            r.push(copy.path);
            i = i + 1;
        }
        r
    }

    /// The subscribers an event goes to: all, but those that asked to hear only
    /// of state changes when this event is neither one nor an override.
    pub fn recipients(&self, state_has_been_modified: bool, is_override_event: bool) -> (r: Vec<
        SubscriberSocketPath,
    >)
        ensures
            r@.len() == recipients_of(self.subscriptions(), state_has_been_modified, is_override_event).len(),
            forall|i: int|
                0 <= i < r@.len() ==> (#[trigger] r@[i]).name_spec() == recipients_of(
                    self.subscriptions(),
                    state_has_been_modified,
                    is_override_event,
                )[i].name_spec() && r@[i].path_units() == recipients_of(
                    self.subscriptions(),
                    state_has_been_modified,
                    is_override_event,
                )[i].path_units(),
    {
        let mut r: Vec<SubscriberSocketPath> = Vec::new();
        let mut i: usize = 0;
        while i < self.sockets.len()
            invariant
                0 <= i <= self.sockets@.len(),
                r@.len() == recipients_of(self.sockets@.take(i as int), state_has_been_modified, is_override_event).len(),
                forall|j: int|
                    0 <= j < r@.len() ==> (#[trigger] r@[j]).name_spec() == recipients_of(
                        self.sockets@.take(i as int),
                        state_has_been_modified,
                        is_override_event,
                    )[j].name_spec() && r@[j].path_units() == recipients_of(
                        self.sockets@.take(i as int),
                        state_has_been_modified,
                        is_override_event,
                    )[j].path_units(),
            decreases self.sockets.len() - i,
        {
            proof {
                assert(self.sockets@.take(i + 1).drop_last() =~= self.sockets@.take(i as int));
                assert(self.sockets@.take(i + 1).last() == self.sockets@[i as int]);
            }
            if should_notify(self.sockets[i].1, state_has_been_modified, is_override_event) {
                r.push(self.sockets[i].0.duplicate());
            }
            i = i + 1;
        }
        proof {
            assert(self.sockets@.take(i as int) =~= self.sockets@);
        }
        r
    }
}

} // verus!
