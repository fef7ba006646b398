//! Resolution of script-merge conflicts. The merger writes each conflict
//! into the merged file between markers:
//!
//! ```text
//! <<<<<<< ours
//! ...
//! ||||||| original
//! ...
//! =======
//! ...
//! >>>>>>> theirs
//! ```
//!
//! and the user answers with, for each conflict, the text that replaces the
//! context before it, each of its three versions, and the context after it.
//! The file is handled as its UTF-8 bytes, and every position is a byte
//! offset, as the merger counts them.

use vstd::prelude::*;
use vstd::utf8::{encode_utf8, valid_utf8};

verus! {

/// The user's resolution of one conflict.
pub struct Conflict {
    pub ours: String,
    pub original: String,
    pub theirs: String,
    /// The text that replaces the context before the conflict.
    pub context_before: String,
    /// The text that replaces the context after the conflict.
    pub context_after: String,
    /// How many bytes of context the merger wrote before and after the
    /// conflict markers.
    pub context_original_size: usize,
}

/// The resolutions of the conflicts of one merged file.
pub struct SocketMessage {
    pub conflicts: Vec<Conflict>,
    pub file_name: String,
    pub file_path: String,
    pub mod_name: String,
}

/// The mathematical value of a resolution: the bytes of its texts.
pub struct ConflictView {
    pub ours: Seq<u8>,
    pub original: Seq<u8>,
    pub theirs: Seq<u8>,
    pub before: Seq<u8>,
    pub after: Seq<u8>,
    pub size: nat,
}

impl View for Conflict {
    type V = ConflictView;

    open spec fn view(&self) -> ConflictView {
        ConflictView {
            ours: encode_utf8(self.ours@),
            original: encode_utf8(self.original@),
            theirs: encode_utf8(self.theirs@),
            before: encode_utf8(self.context_before@),
            after: encode_utf8(self.context_after@),
            size: self.context_original_size as nat,
        }
    }
}

/// The resolutions of a message, in order.
pub open spec fn conflicts_view(m: SocketMessage) -> Seq<ConflictView> {
    m.conflicts@.map_values(|c: Conflict| c@)
}

/// `<<<<<<< ours`
pub open spec fn ours_marker() -> Seq<u8> {
    seq![60u8, 60, 60, 60, 60, 60, 60, 32, 111, 117, 114, 115]
}

/// `||||||| original`
pub open spec fn original_marker() -> Seq<u8> {
    seq![124u8, 124, 124, 124, 124, 124, 124, 32, 111, 114, 105, 103, 105, 110, 97, 108]
}

/// `=======`
pub open spec fn separator_marker() -> Seq<u8> {
    seq![61u8, 61, 61, 61, 61, 61, 61]
}

/// `>>>>>>> theirs`
pub open spec fn theirs_marker() -> Seq<u8> {
    seq![62u8, 62, 62, 62, 62, 62, 62, 32, 116, 104, 101, 105, 114, 115]
}

/// `p` occurs in `s` at `i`.
pub open spec fn matches_at(s: Seq<u8>, p: Seq<u8>, i: int) -> bool {
    0 <= i && i + p.len() <= s.len() && s.subrange(i, i + p.len()) == p
}

/// The first occurrence of `p` in `s` at or after `k`.
pub open spec fn find_from(s: Seq<u8>, p: Seq<u8>, k: int) -> Option<int>
    decreases s.len() + 1 - k,
{
    if k < 0 || k + p.len() > s.len() {
        None
    } else if matches_at(s, p, k) {
        Some(k)
    } else {
        find_from(s, p, k + 1)
    }
}

/// The first occurrence of `p` in `s`.
pub open spec fn find(s: Seq<u8>, p: Seq<u8>) -> Option<int> {
    find_from(s, p, 0)
}

/// `i` is a character boundary of the UTF-8 bytes `s`: the start, the end,
/// or a byte that does not continue a character.
pub open spec fn char_boundary(s: Seq<u8>, i: int) -> bool {
    i == 0 || i == s.len() || (0 < i < s.len() && !(0x80 <= s[i] && s[i] < 0xC0))
}

/// `s` with the bytes from `start` to `end` replaced by `r`, when both are
/// character boundaries in order; nothing otherwise.
pub open spec fn replace_range(s: Seq<u8>, start: int, end: int, r: Seq<u8>) -> Option<Seq<u8>> {
    if 0 <= start <= end <= s.len() && char_boundary(s, start) && char_boundary(s, end) {
        Some(s.subrange(0, start) + r + s.subrange(end, s.len() as int))
    } else {
        None
    }
}

/// `s` with the bytes from the first `p` up to the first `q` replaced by `r`.
pub open spec fn replace_between(s: Seq<u8>, p: Seq<u8>, q: Seq<u8>, r: Seq<u8>) -> Option<Seq<u8>> {
    match (find(s, p), find(s, q)) {
        (Some(a), Some(b)) => replace_range(s, a, b, r),
        _ => None,
    }
}

/// The context before the conflict, the `size` bytes before its first
/// marker, replaced by the resolved context.
pub open spec fn replace_context_before(s: Seq<u8>, c: ConflictView) -> Option<Seq<u8>> {
    match find(s, ours_marker()) {
        Some(i) => if i >= c.size {
            replace_range(s, i - c.size, i, c.before)
        } else {
            None
        },
        None => None,
    }
}

/// The last marker and the `size` bytes after it replaced by the resolved
/// context.
pub open spec fn replace_context_after(s: Seq<u8>, c: ConflictView) -> Option<Seq<u8>> {
    match find(s, theirs_marker()) {
        Some(a) => replace_range(s, a, a + theirs_marker().len() + c.size, c.after),
        None => None,
    }
}

/// The first conflict of `s` resolved by `c`: the context before, the
/// three versions and the context after are replaced in turn; nothing when
/// a marker is missing or a range is not a range of characters.
pub open spec fn resolve_conflict(s: Seq<u8>, c: ConflictView) -> Option<Seq<u8>> {
    match replace_context_before(s, c) {
        None => None,
        Some(s1) => match replace_between(s1, ours_marker(), original_marker(), c.ours) {
            None => None,
            Some(s2) => match replace_between(s2, original_marker(), separator_marker(), c.original) {
                None => None,
                Some(s3) => match replace_between(s3, separator_marker(), theirs_marker(), c.theirs) {
                    None => None,
                    Some(s4) => replace_context_after(s4, c),
                },
            },
        },
    }
}

/// The conflicts of `s` resolved one after the other by `cs`.
pub open spec fn resolve_all(s: Seq<u8>, cs: Seq<ConflictView>) -> Option<Seq<u8>>
    decreases cs.len(),
{
    if cs.len() == 0 {
        Some(s)
    } else {
        match resolve_all(s, cs.drop_last()) {
            Some(t) => resolve_conflict(t, cs.last()),
            None => None,
        }
    }
}

fn ours_marker_bytes() -> (v: Vec<u8>)
    ensures
        v@ == ours_marker(),
{
    let v: Vec<u8> = vec![60u8, 60, 60, 60, 60, 60, 60, 32, 111, 117, 114, 115];
    assert(v@ =~= ours_marker());
    v
}

fn original_marker_bytes() -> (v: Vec<u8>)
    ensures
        v@ == original_marker(),
{
    let v: Vec<u8> = vec![124u8, 124, 124, 124, 124, 124, 124, 32, 111, 114, 105, 103, 105, 110, 97, 108];
    assert(v@ =~= original_marker());
    v
}

fn separator_marker_bytes() -> (v: Vec<u8>)
    ensures
        v@ == separator_marker(),
{
    let v: Vec<u8> = vec![61u8, 61, 61, 61, 61, 61, 61];
    assert(v@ =~= separator_marker());
    v
}

fn theirs_marker_bytes() -> (v: Vec<u8>)
    ensures
        v@ == theirs_marker(),
{
    let v: Vec<u8> = vec![62u8, 62, 62, 62, 62, 62, 62, 32, 116, 104, 101, 105, 114, 115];
    assert(v@ =~= theirs_marker());
    v
}

/// Whether `p` occurs in `s` at `i`.
fn bytes_match_at(s: &Vec<u8>, p: &Vec<u8>, i: usize) -> (r: bool)
    requires
        i + p.len() <= s.len(),
    ensures
        r == matches_at(s@, p@, i as int),
{
    let mut j: usize = 0;
    while j < p.len()
        invariant
            j <= p.len(),
            i + p.len() <= s.len(),
            forall|k: int| 0 <= k < j ==> s@[i + k] == p@[k],
        decreases p.len() - j,
    {
        if s[i + j] != p[j] {
            assert(s@.subrange(i as int, i + p.len())[j as int] != p@[j as int]);
            return false;
        }
        j = j + 1;
    }
    assert(s@.subrange(i as int, i + p.len()) =~= p@);
    true
}

/// The first occurrence of `p` in `s`.
pub fn find_bytes(s: &Vec<u8>, p: &Vec<u8>) -> (r: Option<usize>)
    ensures
        match r {
            Some(i) => find(s@, p@) == Some(i as int),
            None => find(s@, p@) is None,
        },
{
    let mut i: usize = 0;
    while i <= s.len() && p.len() <= s.len() - i
        invariant
            find(s@, p@) == find_from(s@, p@, i as int),
        decreases s.len() + 1 - i,
    {
        if bytes_match_at(s, p, i) {
            return Some(i);
        }
        if i >= s.len() {
            assert(find_from(s@, p@, i + 1) is None);
            return None;
        }
        i = i + 1;
    }
    None
}

/// Whether `i` is a character boundary of `s`.
fn is_char_boundary(s: &Vec<u8>, i: usize) -> (r: bool)
    ensures
        r == char_boundary(s@, i as int),
{
    if i == 0 || i == s.len() {
        true
    } else if i < s.len() {
        !(0x80u8 <= s[i] && s[i] < 0xC0u8)
    } else {
        false
    }
}

/// `s` with the bytes from `start` to `end` replaced by `r`, when both are
/// character boundaries in order.
pub fn replace_bytes(s: Vec<u8>, start: usize, end: usize, r: &[u8]) -> (out: Option<Vec<u8>>)
    ensures
        match replace_range(s@, start as int, end as int, r@) {
            Some(t) => out matches Some(v) && v@ == t,
            None => out is None,
        },
{
    if !(start <= end && end <= s.len() && is_char_boundary(&s, start) && is_char_boundary(&s, end)) {
        return None;
    }
    let ghost orig = s@;
    let mut s = s;
    let mut tail = s.split_off(end);
    s.truncate(start);
    let mut k: usize = 0;
    while k < r.len()
        invariant
            k <= r.len(),
            s@ == orig.subrange(0, start as int) + r@.subrange(0, k as int),
        decreases r.len() - k,
    {
        s.push(r[k]);
        k = k + 1;
        assert(s@ =~= orig.subrange(0, start as int) + r@.subrange(0, k as int));
    }
    s.append(&mut tail);
    assert(s@ =~= orig.subrange(0, start as int) + r@ + orig.subrange(end as int, orig.len() as int));
    Some(s)
}

/// `s` with the bytes from the first `p` up to the first `q` replaced by `r`.
fn replace_between_bytes(s: Vec<u8>, p: &Vec<u8>, q: &Vec<u8>, r: &[u8]) -> (out: Option<Vec<u8>>)
    ensures
        match replace_between(s@, p@, q@, r@) {
            Some(t) => out matches Some(v) && v@ == t,
            None => out is None,
        },
{
    match (find_bytes(&s, p), find_bytes(&s, q)) {
        (Some(a), Some(b)) => replace_bytes(s, a, b, r),
        _ => None,
    }
}

/// The first conflict of `content` resolved by `c`.
pub fn resolve_one_conflict(content: Vec<u8>, c: &Conflict) -> (out: Option<Vec<u8>>)
    ensures
        out is Some <==> resolve_conflict(content@, c@) is Some,
        out matches Some(v) ==> resolve_conflict(content@, c@) == Some(v@),
{
    let ours = ours_marker_bytes();
    let original = original_marker_bytes();
    let separator = separator_marker_bytes();
    let theirs = theirs_marker_bytes();
    // the context before
    let s1 = match find_bytes(&content, &ours) {
        Some(i) => {
            if i < c.context_original_size {
                return None;
            }
            match replace_bytes(content, i - c.context_original_size, i, c.context_before.as_str().as_bytes()) {
                Some(v) => v,
                None => return None,
            }
        },
        None => return None,
    };
    // our version, up to the original version
    let s2 = match replace_between_bytes(s1, &ours, &original, c.ours.as_str().as_bytes()) {
        Some(v) => v,
        None => return None,
    };
    // the original version, up to their version
    let s3 = match replace_between_bytes(s2, &original, &separator, c.original.as_str().as_bytes()) {
        Some(v) => v,
        None => return None,
    };
    // their version, up to the context after
    let s4 = match replace_between_bytes(s3, &separator, &theirs, c.theirs.as_str().as_bytes()) {
        Some(v) => v,
        None => return None,
    };
    // the context after
    match find_bytes(&s4, &theirs) {
        Some(a) => {
            if c.context_original_size > s4.len() || theirs.len() > s4.len() - c.context_original_size
                || a > s4.len() - c.context_original_size - theirs.len() {
                return None;
            }
            replace_bytes(s4, a, a + theirs.len() + c.context_original_size, c.context_after.as_str().as_bytes())
        },
        None => None,
    }
}

/// `content` with the conflicts resolved one after the other by the
/// resolutions of `resolution`; nothing when one of them does not apply.
pub fn resolve_conflicts(content: Vec<u8>, resolution: &SocketMessage) -> (out: Option<Vec<u8>>)
    ensures
        match resolve_all(content@, conflicts_view(*resolution)) {
            Some(t) => out matches Some(v) && v@ == t,
            None => out is None,
        },
{
    let ghost cs = conflicts_view(*resolution);
    let ghost start = content@;
    let mut current = content;
    let mut i: usize = 0;
    assert(cs.take(0) =~= Seq::<ConflictView>::empty());
    while i < resolution.conflicts.len()
        invariant
            i <= resolution.conflicts.len(),
            cs == conflicts_view(*resolution),
            start == content@,
            cs.len() == resolution.conflicts.len(),
            forall|j: int| 0 <= j < cs.len() ==> cs[j] == #[trigger] resolution.conflicts@[j]@,
            resolve_all(start, cs.take(i as int)) == Some(current@),
        decreases resolution.conflicts.len() - i,
    {
        proof {
            lemma_resolve_all_step(start, cs, i as int);
        }
        let c = &resolution.conflicts[i];
        assert(c@ == cs[i as int]);
        let next = resolve_one_conflict(current, c);
        match next {
            Some(v) => {
                current = v;
            },
            None => {
                proof {
                    lemma_resolve_all_stays_none(start, cs, i as int + 1);
                }
                return None;
            },
        }
        i = i + 1;
    }
    proof {
        assert(cs.take(cs.len() as int) =~= cs);
    }
    Some(current)
}

/// Resolving one more conflict is resolving the first ones, then that one.
proof fn lemma_resolve_all_step(s: Seq<u8>, cs: Seq<ConflictView>, i: int)
    requires
        0 <= i < cs.len(),
    ensures
        resolve_all(s, cs.take(i + 1)) == match resolve_all(s, cs.take(i)) {
            Some(t) => resolve_conflict(t, cs[i]),
            None => None,
        },
{
    let t = cs.take(i + 1);
    assert(t.drop_last() =~= cs.take(i));
    assert(t.last() == cs[i]);
}

/// Once a resolution does not apply, the later ones cannot make up for it.
proof fn lemma_resolve_all_stays_none(s: Seq<u8>, cs: Seq<ConflictView>, k: int)
    requires
        0 <= k <= cs.len(),
        resolve_all(s, cs.take(k)) is None,
    ensures
        resolve_all(s, cs) is None,
    decreases cs.len() - k,
{
    if k < cs.len() {
        lemma_resolve_all_step(s, cs, k);
        lemma_resolve_all_stays_none(s, cs, k + 1);
    } else {
        assert(cs.take(k) =~= cs);
    }
}

/// `content` with the conflicts resolved one after the other, when every
/// resolution applies.
pub fn apply_conflict_resolutions(content: Vec<u8>, resolution: &SocketMessage) -> (out: Vec<u8>)
    requires
        resolve_all(content@, conflicts_view(*resolution)) is Some,
    ensures
        Some(out@) == resolve_all(content@, conflicts_view(*resolution)),
{
    match resolve_conflicts(content, resolution) {
        Some(v) => v,
        None => {
            assert(false);
            Vec::new()
        },
    }
}

/// The bytes start with a byte-order mark that selects a decoding: UTF-8
/// (`EF BB BF`), UTF-16 little-endian (`FF FE`) or big-endian (`FE FF`),
/// followed by at least one more byte for the UTF-16 marks.
pub open spec fn has_bom(raw: Seq<u8>) -> bool {
    raw.len() >= 3 && (
        (raw[0] == 0xEFu8 && raw[1] == 0xBBu8 && raw[2] == 0xBFu8)
        || (raw[0] == 0xFFu8 && raw[1] == 0xFEu8)
        || (raw[0] == 0xFEu8 && raw[1] == 0xFFu8))
}

/// The UTF-8 text that BOM-sniffing decoding makes of the bytes of a file,
/// or nothing when the result is not valid UTF-8.
pub uninterp spec fn decoded_text(raw: Seq<u8>) -> Option<Seq<u8>>;

/// Decodes the bytes of a script file with `encoding_rs_io::DecodeReaderBytes`
/// and reads the result with `std::io::Read::read_to_string`. The contract
/// names the result `decoded_text`, a function of the bytes alone, and
/// states what the crate documents: without a byte-order mark the bytes pass
/// through unchanged, so the text is the bytes when they are valid UTF-8 and
/// reading fails otherwise; and what `read_to_string` returns is valid UTF-8.
/// The transcoding of texts that start with a byte-order mark is not stated.
#[verifier::external_body]
fn decode_script_text(raw: &[u8]) -> (r: Option<Vec<u8>>)
    ensures
        decoded_text(raw@) == match r {
            Some(v) => Some(v@),
            None => None,
        },
        !has_bom(raw@) ==> (r is Some <==> valid_utf8(raw@)),
        !has_bom(raw@) ==> (r matches Some(v) ==> v@ == raw@),
        r matches Some(v) ==> valid_utf8(v@),
{
    let mut decoder = encoding_rs_io::DecodeReaderBytes::new(raw);
    let mut text = String::new();
    match std::io::Read::read_to_string(&mut decoder, &mut text) {
        Ok(_) => Some(text.into_bytes()),
        Err(_) => None,
    }
}

/// The resolved content of a script file whose bytes are `raw`: the file is
/// decoded, then its conflicts are resolved by `resolution`; nothing when it
/// cannot be decoded or a resolution does not apply.
pub fn resolve_script_file(raw: &[u8], resolution: &SocketMessage) -> (r: Option<Vec<u8>>)
    ensures
        match decoded_text(raw@) {
            Some(text) => match resolve_all(text, conflicts_view(*resolution)) {
                Some(t) => r matches Some(v) && v@ == t,
                None => r is None,
            },
            None => r is None,
        },
{
    match decode_script_text(raw) {
        Some(text) => resolve_conflicts(text, resolution),
        None => None,
    }
}

/// Resolving no conflict leaves the content as it is.
pub proof fn law_no_conflicts_no_change(s: Seq<u8>)
    ensures
        resolve_all(s, Seq::empty()) == Some(s),
{
}

/// The protocol the merge page speaks over its web socket.
pub open spec fn merge_protocol() -> Seq<char> {
    "rust-websocket"@
}

/// Whether a web-socket request offers the merge page's protocol.
pub fn accepts_merge_protocol(protocols: &Vec<String>) -> (r: bool)
    ensures
        r == protocols@.map_values(|s: String| s@).contains(merge_protocol()),
{
    let wanted = "rust-websocket".to_owned();
    let ghost all = protocols@.map_values(|s: String| s@);
    let mut i: usize = 0;
    while i < protocols.len()
        invariant
            i <= protocols.len(),
            wanted@ == merge_protocol(),
            all == protocols@.map_values(|s: String| s@),
            forall|j: int| 0 <= j < i ==> all[j] != merge_protocol(),
        decreases protocols.len() - i,
    {
        if protocols[i] == wanted {
            assert(all[i as int] == merge_protocol());
            return true;
        }
        i = i + 1;
    }
    false
}

/// A boundary in the sense of the byte test is a character boundary of
/// valid UTF-8.
proof fn lemma_char_boundary(s: Seq<u8>, i: int)
    requires
        valid_utf8(s),
        char_boundary(s, i),
    ensures
        vstd::utf8::is_char_boundary(s, i),
{
    vstd::utf8::is_char_boundary_start_end_of_seq(s);
    if 0 < i < s.len() {
        vstd::utf8::is_char_boundary_iff_not_is_continuation_byte(s, i);
    }
}

/// Replacing a range of characters of valid UTF-8 with valid UTF-8 gives
/// valid UTF-8.
pub proof fn lemma_replace_keeps_utf8(s: Seq<u8>, start: int, end: int, r: Seq<u8>)
    requires
        valid_utf8(s),
        valid_utf8(r),
    ensures
        replace_range(s, start, end, r) matches Some(t) ==> valid_utf8(t),
{
    if let Some(t) = replace_range(s, start, end, r) {
        lemma_char_boundary(s, start);
        lemma_char_boundary(s, end);
        vstd::utf8::valid_utf8_split(s, start);
        vstd::utf8::valid_utf8_split(s, end);
        vstd::utf8::valid_utf8_concat(s.subrange(0, start), r);
        vstd::utf8::valid_utf8_concat(s.subrange(0, start) + r, s.subrange(end, s.len() as int));
    }
}

/// The texts of a resolution are valid UTF-8.
pub open spec fn valid_texts(c: ConflictView) -> bool {
    &&& valid_utf8(c.ours)
    &&& valid_utf8(c.original)
    &&& valid_utf8(c.theirs)
    &&& valid_utf8(c.before)
    &&& valid_utf8(c.after)
}

/// The texts of every resolution received are valid UTF-8.
pub proof fn lemma_conflict_texts_valid(c: Conflict)
    ensures
        valid_texts(c@),
{
    vstd::utf8::encode_utf8_valid_utf8(c.ours@);
    vstd::utf8::encode_utf8_valid_utf8(c.original@);
    vstd::utf8::encode_utf8_valid_utf8(c.theirs@);
    vstd::utf8::encode_utf8_valid_utf8(c.context_before@);
    vstd::utf8::encode_utf8_valid_utf8(c.context_after@);
}

/// Resolving a conflict of a valid UTF-8 file with valid UTF-8 texts keeps
/// the file valid UTF-8.
pub proof fn lemma_resolve_conflict_keeps_utf8(s: Seq<u8>, c: ConflictView)
    requires
        valid_utf8(s),
        valid_texts(c),
    ensures
        resolve_conflict(s, c) matches Some(t) ==> valid_utf8(t),
{
    if let Some(i) = find(s, ours_marker()) {
        if i >= c.size {
            lemma_replace_keeps_utf8(s, i - c.size, i, c.before);
        }
    }
    if let Some(s1) = replace_context_before(s, c) {
        if let (Some(a), Some(b)) = (find(s1, ours_marker()), find(s1, original_marker())) {
            lemma_replace_keeps_utf8(s1, a, b, c.ours);
        }
        if let Some(s2) = replace_between(s1, ours_marker(), original_marker(), c.ours) {
            if let (Some(a), Some(b)) = (find(s2, original_marker()), find(s2, separator_marker())) {
                lemma_replace_keeps_utf8(s2, a, b, c.original);
            }
            if let Some(s3) = replace_between(s2, original_marker(), separator_marker(), c.original) {
                if let (Some(a), Some(b)) = (find(s3, separator_marker()), find(s3, theirs_marker())) {
                    lemma_replace_keeps_utf8(s3, a, b, c.theirs);
                }
                if let Some(s4) = replace_between(s3, separator_marker(), theirs_marker(), c.theirs) {
                    if let Some(a) = find(s4, theirs_marker()) {
                        lemma_replace_keeps_utf8(s4, a, a + theirs_marker().len() + c.size, c.after);
                    }
                }
            }
        }
    }
}

/// Resolving the conflicts of a file that is valid UTF-8 with the
/// resolutions of a message gives valid UTF-8, so the resolved file is text
/// again.
pub proof fn law_resolution_keeps_utf8(s: Seq<u8>, m: SocketMessage)
    requires
        valid_utf8(s),
    ensures
        resolve_all(s, conflicts_view(m)) matches Some(t) ==> valid_utf8(t),
{
    let cs = conflicts_view(m);
    assert forall|k: int| 0 <= k < cs.len() implies valid_texts(#[trigger] cs[k]) by {
        lemma_conflict_texts_valid(m.conflicts@[k]);
    }
    lemma_resolve_all_keeps_utf8(s, cs);
}

proof fn lemma_resolve_all_keeps_utf8(s: Seq<u8>, cs: Seq<ConflictView>)
    requires
        valid_utf8(s),
        forall|k: int| 0 <= k < cs.len() ==> valid_texts(#[trigger] cs[k]),
    ensures
        resolve_all(s, cs) matches Some(t) ==> valid_utf8(t),
    decreases cs.len(),
{
    if cs.len() > 0 {
        let init = cs.drop_last();
        assert forall|k: int| 0 <= k < init.len() implies valid_texts(#[trigger] init[k]) by {
            assert(init[k] == cs[k]);
        }
        lemma_resolve_all_keeps_utf8(s, init);
        if let Some(t) = resolve_all(s, init) {
            assert(valid_texts(cs[cs.len() - 1]));
            lemma_resolve_conflict_keeps_utf8(t, cs.last());
        }
    }
}

/// The byte `b` does not occur in `x`.
#[verifier::opaque]
pub open spec fn lacks(x: Seq<u8>, b: u8) -> bool {
    forall|j: int| 0 <= j < x.len() ==> x[j] != b
}

/// `b` continues a character in UTF-8.
pub open spec fn continues_char(b: u8) -> bool {
    0x80 <= b && b < 0xC0
}

proof fn lemma_lacks_concat(x: Seq<u8>, y: Seq<u8>, b: u8)
    requires
        lacks(x, b),
        lacks(y, b),
    ensures
        lacks(x + y, b),
{
    reveal(lacks);
    assert forall|j: int| 0 <= j < (x + y).len() implies (x + y)[j] != b by {
        if j >= x.len() {
            assert((x + y)[j] == y[j - x.len()]);
        }
    }
}

proof fn lemma_find_from_at(s: Seq<u8>, m: Seq<u8>, k: int, i: int)
    requires
        0 <= k <= i,
        m.len() > 0,
        matches_at(s, m, i),
        forall|j: int| k <= j < i ==> s[j] != m[0],
    ensures
        find_from(s, m, k) == Some(i),
    decreases i - k,
{
    if k < i {
        assert(s.subrange(k, k + m.len())[0] == s[k]);
        assert(!matches_at(s, m, k));
        lemma_find_from_at(s, m, k + 1, i);
    }
}

/// The first occurrence of `m` in `pre + m + rest` is right after `pre`
/// when `pre` lacks the first byte of `m`.
proof fn lemma_find_after(pre: Seq<u8>, m: Seq<u8>, rest: Seq<u8>)
    requires
        m.len() > 0,
        lacks(pre, m[0]),
    ensures
        find(pre + m + rest, m) == Some(pre.len() as int),
{
    reveal(lacks);
    let s = pre + m + rest;
    assert(s.subrange(pre.len() as int, (pre.len() + m.len()) as int) =~= m);
    assert forall|j: int| 0 <= j < pre.len() implies s[j] != m[0] by {
        assert(s[j] == pre[j]);
    }
    lemma_find_from_at(s, m, 0, pre.len() as int);
}

/// The position after `x` in `x + y` is a character boundary when `y` is
/// empty or starts a character.
proof fn lemma_boundary_after(x: Seq<u8>, y: Seq<u8>)
    requires
        y.len() > 0 ==> !continues_char(y[0]),
    ensures
        char_boundary(x + y, x.len() as int),
{
    if x.len() > 0 && y.len() > 0 {
        assert((x + y)[x.len() as int] == y[0]);
    }
}

/// Replacing the text from marker `m1` up to marker `m2`.
proof fn lemma_replace_between_pieces(
    pre: Seq<u8>,
    m1: Seq<u8>,
    mid: Seq<u8>,
    m2: Seq<u8>,
    post: Seq<u8>,
    r: Seq<u8>,
)
    requires
        m1.len() > 0,
        m2.len() > 0,
        !continues_char(m1[0]),
        !continues_char(m2[0]),
        lacks(pre, m1[0]),
        lacks(pre + m1 + mid, m2[0]),
    ensures
        replace_between(pre + m1 + mid + m2 + post, m1, m2, r) == Some(pre + r + m2 + post),
{
    let s = pre + m1 + mid + m2 + post;
    assert(s =~= pre + m1 + (mid + m2 + post));
    lemma_find_after(pre, m1, mid + m2 + post);
    assert(s =~= (pre + m1 + mid) + m2 + post);
    lemma_find_after(pre + m1 + mid, m2, post);
    let a = pre.len() as int;
    let b = (pre + m1 + mid).len() as int;
    assert(s =~= pre + (m1 + mid + m2 + post));
    assert((m1 + mid + m2 + post)[0] == m1[0]);
    lemma_boundary_after(pre, m1 + mid + m2 + post);
    assert((m2 + post)[0] == m2[0]);
    lemma_boundary_after(pre + m1 + mid, m2 + post);
    assert(s.subrange(0, a) + r + s.subrange(b, s.len() as int) =~= pre + r + m2 + post);
}

/// Replacing the context before the first conflict.
proof fn lemma_context_before_piece(p: Seq<u8>, cb: Seq<u8>, rest: Seq<u8>, c: ConflictView)
    requires
        c.size == cb.len(),
        lacks(p + cb, 60u8),
        cb.len() > 0 ==> !continues_char(cb[0]),
    ensures
        replace_context_before(p + cb + ours_marker() + rest, c) == Some(p + c.before + ours_marker() + rest),
{
    let m = ours_marker();
    let s = p + cb + m + rest;
    lemma_find_after(p + cb, m, rest);
    let i = (p + cb).len() as int;
    assert(s =~= p + (cb + m + rest));
    if cb.len() > 0 {
        assert((cb + m + rest)[0] == cb[0]);
    } else {
        assert((cb + m + rest)[0] == m[0]);
    }
    lemma_boundary_after(p, cb + m + rest);
    assert(s =~= (p + cb) + (m + rest));
    assert((m + rest)[0] == m[0]);
    lemma_boundary_after(p + cb, m + rest);
    assert(s.subrange(0, i - c.size) + c.before + s.subrange(i, s.len() as int) =~= p + c.before + m + rest);
}

/// Replacing the last marker and the context after it.
proof fn lemma_context_after_piece(pre: Seq<u8>, ca: Seq<u8>, q: Seq<u8>, c: ConflictView)
    requires
        c.size == ca.len(),
        lacks(pre, 62u8),
        q.len() > 0 ==> !continues_char(q[0]),
    ensures
        replace_context_after(pre + theirs_marker() + ca + q, c) == Some(pre + c.after + q),
{
    let m = theirs_marker();
    let s = pre + m + ca + q;
    assert(s =~= pre + m + (ca + q));
    lemma_find_after(pre, m, ca + q);
    let a = pre.len() as int;
    let e = a + m.len() + c.size;
    assert(s =~= pre + (m + ca + q));
    assert((m + ca + q)[0] == m[0]);
    lemma_boundary_after(pre, m + ca + q);
    assert(s =~= (pre + m + ca) + q);
    lemma_boundary_after(pre + m + ca, q);
    assert(s.subrange(0, a) + c.after + s.subrange(e, s.len() as int) =~= pre + c.after + q);
}

/// A file that holds one conflict: the text `p`, the context `cb`, the
/// `ours` section `a`, the `original` section `o`, the `theirs` section `b`
/// and the context `ca`, each after its marker where it has one, then the
/// text `q`.
pub open spec fn conflict_file(
    p: Seq<u8>,
    cb: Seq<u8>,
    a: Seq<u8>,
    o: Seq<u8>,
    b: Seq<u8>,
    ca: Seq<u8>,
    q: Seq<u8>,
) -> Seq<u8> {
    let after_theirs = theirs_marker() + (ca + q);
    let after_separator = separator_marker() + (b + after_theirs);
    let after_original = original_marker() + (o + after_separator);
    p + (cb + (ours_marker() + (a + after_original)))
}

/// Resolving a conflict writes each chosen text in place of its section:
/// the chosen context before, then the chosen `ours`, `original` and
/// `theirs` versions, then the chosen context after, between the text
/// before the conflict's context and the text after it, which stay as they
/// are. This holds for a file
/// `p + cb + <<<<<<< ours + a + ||||||| original + o + ======= + b + >>>>>>> theirs + ca + q`
/// whose contexts `cb` and `ca` have the declared size, where no marker
/// starts earlier than its place (each section, and each chosen text that
/// comes before a marker, lacks that marker's first character), and where
/// the contexts begin whole characters.
pub proof fn law_resolution_writes_each_chosen_text(
    p: Seq<u8>,
    cb: Seq<u8>,
    a: Seq<u8>,
    o: Seq<u8>,
    b: Seq<u8>,
    ca: Seq<u8>,
    q: Seq<u8>,
    c: ConflictView,
)
    requires
        c.size == cb.len(),
        c.size == ca.len(),
        lacks(p, 60u8),
        lacks(cb, 60u8),
        lacks(c.before, 60u8),
        lacks(p, 124u8),
        lacks(c.before, 124u8),
        lacks(a, 124u8),
        lacks(c.ours, 124u8),
        lacks(p, 61u8),
        lacks(c.before, 61u8),
        lacks(c.ours, 61u8),
        lacks(o, 61u8),
        lacks(c.original, 61u8),
        lacks(p, 62u8),
        lacks(c.before, 62u8),
        lacks(c.ours, 62u8),
        lacks(c.original, 62u8),
        lacks(b, 62u8),
        lacks(c.theirs, 62u8),
        cb.len() > 0 ==> !continues_char(cb[0]),
        q.len() > 0 ==> !continues_char(q[0]),
    ensures
        resolve_conflict(conflict_file(p, cb, a, o, b, ca, q), c) == Some(
            p + c.before + c.ours + c.original + c.theirs + c.after + q,
        ),
{
    let om = ours_marker();
    let rm = original_marker();
    let sm = separator_marker();
    let tm = theirs_marker();
    lemma_marker_bytes();
    let t4 = tm + (ca + q);
    let t3 = sm + (b + t4);
    let t2 = rm + (o + t3);
    let t1 = om + (a + t2);
    let x0 = p + c.before;
    let x1 = x0 + c.ours;
    let x2 = x1 + c.original;
    let x3 = x2 + c.theirs;
    lemma_lacks_concat(p, c.before, 60u8);
    lemma_lacks_concat(p, c.before, 124u8);
    lemma_lacks_concat(p, c.before, 61u8);
    lemma_lacks_concat(p, c.before, 62u8);
    lemma_lacks_concat(x0, c.ours, 124u8);
    lemma_lacks_concat(x0, c.ours, 61u8);
    lemma_lacks_concat(x0, c.ours, 62u8);
    lemma_lacks_concat(x1, c.original, 61u8);
    lemma_lacks_concat(x1, c.original, 62u8);
    lemma_lacks_concat(x2, c.theirs, 62u8);
    lemma_context_before_nested(p, cb, a + t2, c);
    lemma_between_nested(x0, om, a, rm, o + t3, c.ours);
    lemma_between_nested(x1, rm, o, sm, b + t4, c.original);
    lemma_between_nested(x2, sm, b, tm, ca + q, c.theirs);
    lemma_context_after_nested(x3, ca, q, c);
    assert(conflict_file(p, cb, a, o, b, ca, q) == p + (cb + t1));
    lemma_resolve_conflict_steps(p + (cb + t1), x0 + t1, x1 + t2, x2 + t3, x3 + t4, x3 + c.after + q, c);
}

proof fn lemma_resolve_conflict_steps(
    s: Seq<u8>,
    s1: Seq<u8>,
    s2: Seq<u8>,
    s3: Seq<u8>,
    s4: Seq<u8>,
    r: Seq<u8>,
    c: ConflictView,
)
    requires
        replace_context_before(s, c) == Some(s1),
        replace_between(s1, ours_marker(), original_marker(), c.ours) == Some(s2),
        replace_between(s2, original_marker(), separator_marker(), c.original) == Some(s3),
        replace_between(s3, separator_marker(), theirs_marker(), c.theirs) == Some(s4),
        replace_context_after(s4, c) == Some(r),
    ensures
        resolve_conflict(s, c) == Some(r),
{
}

proof fn lemma_context_before_nested(p: Seq<u8>, cb: Seq<u8>, rest: Seq<u8>, c: ConflictView)
    requires
        c.size == cb.len(),
        lacks(p, 60u8),
        lacks(cb, 60u8),
        cb.len() > 0 ==> !continues_char(cb[0]),
    ensures
        replace_context_before(p + (cb + (ours_marker() + rest)), c) == Some(
            (p + c.before) + (ours_marker() + rest),
        ),
{
    lemma_lacks_concat(p, cb, 60u8);
    lemma_context_before_piece(p, cb, rest, c);
    assert(p + (cb + (ours_marker() + rest)) =~= p + cb + ours_marker() + rest);
    assert((p + c.before) + (ours_marker() + rest) =~= p + c.before + ours_marker() + rest);
}

proof fn lemma_between_nested(
    pre: Seq<u8>,
    m1: Seq<u8>,
    mid: Seq<u8>,
    m2: Seq<u8>,
    post: Seq<u8>,
    r: Seq<u8>,
)
    requires
        m1.len() > 0,
        m2.len() > 0,
        !continues_char(m1[0]),
        !continues_char(m2[0]),
        lacks(pre, m1[0]),
        lacks(pre, m2[0]),
        lacks(m1, m2[0]),
        lacks(mid, m2[0]),
    ensures
        replace_between(pre + (m1 + (mid + (m2 + post))), m1, m2, r) == Some((pre + r) + (m2 + post)),
{
    lemma_lacks_concat(pre, m1, m2[0]);
    lemma_lacks_concat(pre + m1, mid, m2[0]);
    lemma_replace_between_pieces(pre, m1, mid, m2, post, r);
    assert(pre + (m1 + (mid + (m2 + post))) =~= pre + m1 + mid + m2 + post);
    assert((pre + r) + (m2 + post) =~= pre + r + m2 + post);
}

proof fn lemma_context_after_nested(pre: Seq<u8>, ca: Seq<u8>, q: Seq<u8>, c: ConflictView)
    requires
        c.size == ca.len(),
        lacks(pre, 62u8),
        q.len() > 0 ==> !continues_char(q[0]),
    ensures
        replace_context_after(pre + (theirs_marker() + (ca + q)), c) == Some(pre + c.after + q),
{
    lemma_context_after_piece(pre, ca, q, c);
    assert(pre + (theirs_marker() + (ca + q)) =~= pre + theirs_marker() + ca + q);
}

/// The first bytes of the markers, and the bytes that do not occur in the
/// markers that come before.
proof fn lemma_marker_bytes()
    ensures
        ours_marker().len() > 0 && ours_marker()[0] == 60u8,
        original_marker().len() > 0 && original_marker()[0] == 124u8,
        separator_marker().len() > 0 && separator_marker()[0] == 61u8,
        theirs_marker().len() > 0 && theirs_marker()[0] == 62u8,
        lacks(ours_marker(), 124u8),
        lacks(original_marker(), 61u8),
        lacks(separator_marker(), 62u8),
{
    reveal(lacks);
    assert(lacks(ours_marker(), 124u8));
    assert(lacks(original_marker(), 61u8));
    assert(lacks(separator_marker(), 62u8));
}

} // verus!
