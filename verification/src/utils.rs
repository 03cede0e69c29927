//! Text handling for device properties: marker search and vendor/product
//! extraction, multi-string splitting, and decoding of a property buffer.

use vstd::prelude::*;
use vstd::string::*;

verus! {

/// Number of characters in a vendor or product identifier.
pub const ID_WIDTH: usize = 4;

/// The characters `VID_`, which precede the vendor identifier.
pub open spec fn vid_marker() -> Seq<char> {
    seq!['V', 'I', 'D', '_']
}

/// The characters `PID_`, which precede the product identifier.
pub open spec fn pid_marker() -> Seq<char> {
    seq!['P', 'I', 'D', '_']
}

/// `pat` stands in `s` at position `i`.
pub open spec fn occurs_at(s: Seq<char>, pat: Seq<char>, i: int) -> bool {
    0 <= i && i + pat.len() <= s.len() && s.subrange(i, i + pat.len()) == pat
}

/// Position of the first occurrence of `pat` in `s` at or after `from`.
pub open spec fn find_from(s: Seq<char>, pat: Seq<char>, from: int) -> Option<int>
    decreases s.len() + 1 - from,
{
    if from < 0 || from + pat.len() > s.len() {
        None
    } else if s.subrange(from, from + pat.len()) == pat {
        Some(from)
    } else {
        find_from(s, pat, from + 1)
    }
}

/// Position of the first occurrence of `pat` in `s`.
pub open spec fn find(s: Seq<char>, pat: Seq<char>) -> Option<int> {
    find_from(s, pat, 0)
}

/// The four characters that follow the first occurrence of `marker` in `s`,
/// if the marker occurs and that many characters follow it.
pub open spec fn token_after(s: Seq<char>, marker: Seq<char>) -> Option<Seq<char>> {
    match find(s, marker) {
        Some(i) => {
            let start = i + marker.len();
            if start + ID_WIDTH <= s.len() {
                Some(s.subrange(start, start + ID_WIDTH))
            } else {
                None
            }
        },
        None => None,
    }
}

/// Vendor and product identifiers of a hardware identifier: present when
/// both tokens are.
pub open spec fn vid_pid(s: Seq<char>) -> Option<(Seq<char>, Seq<char>)> {
    match (token_after(s, vid_marker()), token_after(s, pid_marker())) {
        (Some(vid), Some(pid)) => Some((vid, pid)),
        _ => None,
    }
}

/// `i` is the first position at which `pat` stands in `s`.
pub open spec fn is_first_occurrence(s: Seq<char>, pat: Seq<char>, i: int) -> bool {
    occurs_at(s, pat, i) && forall|k: int| 0 <= k < i ==> !occurs_at(s, pat, k)
}

/// A search from `from` gives the first occurrence at or after `from`, and
/// none only where there is none.
pub proof fn lemma_find_from(s: Seq<char>, pat: Seq<char>, from: int)
    requires
        0 <= from,
    ensures
        match find_from(s, pat, from) {
            Some(i) => from <= i && occurs_at(s, pat, i) && forall|k: int|
                from <= k < i ==> !occurs_at(s, pat, k),
            None => forall|k: int| from <= k ==> !occurs_at(s, pat, k),
        },
    decreases s.len() + 1 - from,
{
    if from + pat.len() <= s.len() && s.subrange(from, from + pat.len()) != pat {
        lemma_find_from(s, pat, from + 1);
    }
}

/// A search gives the first occurrence of the pattern, and none only where
/// the pattern does not occur.
pub proof fn lemma_find_is_first_occurrence(s: Seq<char>, pat: Seq<char>)
    ensures
        match find(s, pat) {
            Some(i) => is_first_occurrence(s, pat, i),
            None => forall|k: int| !occurs_at(s, pat, k),
        },
{
    lemma_find_from(s, pat, 0);
}

/// Where `VID_` first stands at `i` and `PID_` first stands at `j`, each
/// followed by at least four characters, parsing gives exactly the four
/// characters after each, whatever else the string holds.
pub proof fn lemma_parse_takes_tokens_verbatim(s: Seq<char>, i: int, j: int)
    requires
        is_first_occurrence(s, vid_marker(), i),
        is_first_occurrence(s, pid_marker(), j),
        i + 8 <= s.len(),
        j + 8 <= s.len(),
    ensures
        vid_pid(s) == Some((s.subrange(i + 4, i + 8), s.subrange(j + 4, j + 8))),
{
    lemma_find_is_first_occurrence(s, vid_marker());
    lemma_find_is_first_occurrence(s, pid_marker());
}

/// Where both markers stand somewhere with four characters after them,
/// parsing succeeds, and gives the four characters after the first
/// occurrence of each marker, which is the given one or an earlier one.
pub proof fn lemma_parse_finds_both_tokens(s: Seq<char>, i: int, j: int)
    requires
        occurs_at(s, vid_marker(), i),
        occurs_at(s, pid_marker(), j),
        i + 8 <= s.len(),
        j + 8 <= s.len(),
    ensures
        ({
            let first_vid = find(s, vid_marker());
            let first_pid = find(s, pid_marker());
            &&& first_vid is Some
            &&& first_pid is Some
            &&& is_first_occurrence(s, vid_marker(), first_vid->0)
            &&& is_first_occurrence(s, pid_marker(), first_pid->0)
            &&& first_vid->0 <= i
            &&& first_pid->0 <= j
            &&& vid_pid(s) == Some(
                (
                    s.subrange(first_vid->0 + 4, first_vid->0 + 8),
                    s.subrange(first_pid->0 + 4, first_pid->0 + 8),
                ),
            )
        }),
{
    lemma_find_is_first_occurrence(s, vid_marker());
    lemma_find_is_first_occurrence(s, pid_marker());
}

/// `marker` is missing from `s`, or fewer than four characters follow its
/// first occurrence.
pub open spec fn lacks_token(s: Seq<char>, marker: Seq<char>) -> bool {
    ||| forall|k: int| !occurs_at(s, marker, k)
    ||| exists|i: int| is_first_occurrence(s, marker, i) && i + marker.len() + 4 > s.len()
}

/// Parsing gives nothing exactly for the strings that lack either marker
/// or have fewer than four characters after one.
pub proof fn lemma_parse_absent(s: Seq<char>)
    ensures
        vid_pid(s) is None <==> lacks_token(s, vid_marker()) || lacks_token(s, pid_marker()),
{
    lemma_token_absent(s, vid_marker());
    lemma_token_absent(s, pid_marker());
}

/// No token follows `marker` exactly where `s` lacks it.
pub proof fn lemma_token_absent(s: Seq<char>, marker: Seq<char>)
    ensures
        token_after(s, marker) is None <==> lacks_token(s, marker),
{
    lemma_find_is_first_occurrence(s, marker);
    match find(s, marker) {
        Some(i) => {
            if lacks_token(s, marker) {
                let w = choose|w: int|
                    is_first_occurrence(s, marker, w) && w + marker.len() + 4 > s.len();
                assert(w == i);
            }
        },
        None => {},
    }
}

/// Whether `pat` stands in `s` at character position `i`.
fn matches_at(s: &str, pat: &str, pat_len: usize, i: usize) -> (b: bool)
    requires
        pat_len == pat@.len(),
        i + pat_len <= s@.len(),
        s@.len() <= usize::MAX,
    ensures
        b == (s@.subrange(i as int, i + pat_len) == pat@),
{
    let mut k: usize = 0;
    while k < pat_len
        invariant
            k <= pat_len,
            pat_len == pat@.len(),
            i + pat_len <= s@.len(),
            s@.len() <= usize::MAX,
            forall|j: int| 0 <= j < k ==> s@[i + j] == pat@[j],
        decreases pat_len - k,
    {
        if s.get_char(i + k) != pat.get_char(k) {
            assert(s@.subrange(i as int, i + pat_len)[k as int] != pat@[k as int]);
            return false;
        }
        k += 1;
    }
    assert(s@.subrange(i as int, i + pat_len) =~= pat@);
    true
}

/// Finds the first occurrence of `marker` in `s`, by character position.
pub fn find_marker(s: &str, marker: &str) -> (r: Option<usize>)
    ensures
        match r {
            Some(i) => find(s@, marker@) == Some(i as int) && i + marker@.len() <= s@.len(),
            None => find(s@, marker@) is None,
        },
{
    let n = s.unicode_len();
    let m = marker.unicode_len();
    if m > n {
        return None;
    }
    let last: usize = n - m;
    let mut i: usize = 0;
    loop
        invariant
            n == s@.len(),
            m == marker@.len(),
            last == n - m,
            i <= last,
            find(s@, marker@) == find_from(s@, marker@, i as int),
        decreases last - i,
    {
        if matches_at(s, marker, m, i) {
            return Some(i);
        }
        if i == last {
            return None;
        }
        i += 1;
    }
}

/// The identifier that follows `marker` in `s`, as an owned string.
fn token_after_marker(s: &str, marker: &str) -> (r: Option<String>)
    ensures
        match r {
            Some(t) => token_after(s@, marker@) == Some(t@),
            None => token_after(s@, marker@) is None,
        },
{
    match find_marker(s, marker) {
        Some(i) => {
            let n = s.unicode_len();
            let m = marker.unicode_len();
            if n - i - m >= ID_WIDTH {
                let start: usize = i + m;
                Some(String::from_str(s.substring_char(start, start + ID_WIDTH)))
            } else {
                None
            }
        },
        None => None,
    }
}

/// Extracts the vendor and product identifiers of a hardware identifier:
/// the four characters after the first `VID_` and the four after the first
/// `PID_`, taken verbatim. Absent when either marker is missing or is
/// followed by fewer than four characters.
pub fn parse_vid_pid(hardware_id: &str) -> (r: Option<(String, String)>)
    ensures
        match r {
            Some((vid, pid)) => vid_pid(hardware_id@) == Some((vid@, pid@)),
            None => vid_pid(hardware_id@) is None,
        },
{
    proof {
        reveal_strlit("VID_");
        reveal_strlit("PID_");
        assert("VID_"@ =~= vid_marker());
        assert("PID_"@ =~= pid_marker());
    }
    let vid = token_after_marker(hardware_id, "VID_");
    let pid = token_after_marker(hardware_id, "PID_");
    match (vid, pid) {
        (Some(v), Some(p)) => Some((v, p)),
        _ => None,
    }
}

/// All segments of `s` between NUL characters, empty ones included, in
/// the order in which they stand in `s`.
pub open spec fn segments(s: Seq<char>) -> Seq<Seq<char>>
    decreases s.len(),
{
    if s.len() == 0 {
        seq![Seq::empty()]
    } else {
        let before = segments(s.drop_last());
        if s.last() == '\0' {
            before.push(Seq::empty())
        } else {
            before.drop_last().push(before.last().push(s.last()))
        }
    }
}

/// `segs` without its empty members, the others in their order.
pub open spec fn non_empty(segs: Seq<Seq<char>>) -> Seq<Seq<char>> {
    segs.filter(|seg: Seq<char>| seg.len() > 0)
}

/// The segments joined again, with one NUL between neighbours.
pub open spec fn join_nul(segs: Seq<Seq<char>>) -> Seq<char>
    decreases segs.len(),
{
    if segs.len() == 0 {
        Seq::empty()
    } else if segs.len() == 1 {
        segs[0]
    } else {
        join_nul(segs.drop_last()).push('\0') + segs.last()
    }
}

/// The segments of a string are what splitting at every NUL gives: there
/// is at least one, none holds a NUL, and joined with NULs they give the
/// string back.
pub proof fn lemma_segments_rejoin(s: Seq<char>)
    ensures
        segments(s).len() >= 1,
        forall|k: int, m: int|
            0 <= k < segments(s).len() && 0 <= m < segments(s)[k].len() ==> segments(s)[k][m]
                != '\0',
        join_nul(segments(s)) == s,
    decreases s.len(),
{
    if s.len() == 0 {
        assert(join_nul(segments(s)) =~= s);
    } else {
        let before = segments(s.drop_last());
        lemma_segments_rejoin(s.drop_last());
        if s.last() == '\0' {
            assert(before.push(Seq::empty()).drop_last() =~= before);
            assert(join_nul(segments(s)) =~= s);
        } else {
            let grown = before.last().push(s.last());
            let after = before.drop_last().push(grown);
            assert(after.drop_last() =~= before.drop_last());
            assert(join_nul(after) =~= join_nul(before).push(s.last()));
            assert(join_nul(segments(s)) =~= s);
        }
    }
}

/// Splitting discards the empty segments and keeps the others in their
/// order: the identifiers are the segments of the multi-string filtered
/// for length, each of them non-empty and free of NUL.
pub proof fn lemma_split_keeps_non_empty_segments_in_order(raw: Seq<char>)
    ensures
        hardware_id_list(raw) == segments(raw).filter(|seg: Seq<char>| seg.len() > 0),
        join_nul(segments(raw)) == raw,
        forall|k: int|
            0 <= k < hardware_id_list(raw).len() ==> (#[trigger] hardware_id_list(raw)[k]).len()
                > 0 && !hardware_id_list(raw)[k].contains('\0'),
{
    lemma_segments_rejoin(raw);
    let segs = segments(raw);
    assert forall|k: int| 0 <= k < hardware_id_list(raw).len() implies (
    #[trigger] hardware_id_list(raw)[k]).len() > 0 && !hardware_id_list(raw)[k].contains('\0') by {
        let id = hardware_id_list(raw)[k];
        lemma_filter_members(segs, k);
        let at = choose|at: int| 0 <= at < segs.len() && segs[at] == id;
        if id.contains('\0') {
            let m = choose|m: int| 0 <= m < id.len() && id[m] == '\0';
            assert(segs[at][m] == '\0');
        }
    }
}

/// Each member of the filtered list is a non-empty member of the list.
proof fn lemma_filter_members(segs: Seq<Seq<char>>, k: int)
    requires
        0 <= k < non_empty(segs).len(),
    ensures
        non_empty(segs)[k].len() > 0,
        exists|at: int| 0 <= at < segs.len() && segs[at] == non_empty(segs)[k],
    decreases segs.len(),
{
    reveal(Seq::filter);
    if segs.len() > 0 {
        let rest = non_empty(segs.drop_last());
        if k < rest.len() {
            lemma_filter_members(segs.drop_last(), k);
            let at = choose|at: int|
                0 <= at < segs.drop_last().len() && segs.drop_last()[at] == rest[k];
            assert(segs[at] == non_empty(segs)[k]);
        } else {
            assert(segs[segs.len() - 1] == non_empty(segs)[k]);
        }
    }
}

/// The hardware identifiers held by a NUL-delimited multi-string.
pub open spec fn hardware_id_list(raw: Seq<char>) -> Seq<Seq<char>> {
    non_empty(segments(raw))
}

/// The character sequences of a list of strings.
pub open spec fn texts(strings: Seq<String>) -> Seq<Seq<char>> {
    strings.map_values(|s: String| s@)
}

/// Splits a multi-string on NUL, dropping empty segments and keeping the
/// others in order.
pub fn split_hardware_ids(raw: &str) -> (ids: Vec<String>)
    ensures
        texts(ids@) == hardware_id_list(raw@),
{
    let n = raw.unicode_len();
    let mut ids: Vec<String> = Vec::new();
    let mut start: usize = 0;
    let mut i: usize = 0;
    proof {
        reveal(Seq::filter);
    }
    assert(raw@.take(0) =~= Seq::empty());
    assert(raw@.subrange(0, 0) =~= Seq::empty());
    assert(segments(raw@.take(0)).drop_last() =~= Seq::empty());
    assert(texts(ids@) =~= Seq::empty());
    while i < n
        invariant
            n == raw@.len(),
            start <= i <= n,
            segments(raw@.take(i as int)).len() >= 1,
            segments(raw@.take(i as int)).last() == raw@.subrange(start as int, i as int),
            texts(ids@) == non_empty(segments(raw@.take(i as int)).drop_last()),
        decreases n - i,
    {
        let ghost before = segments(raw@.take(i as int));
        let ghost kept = ids@;
        proof {
            reveal(Seq::filter);
        }
        assert(raw@.take(i + 1).drop_last() =~= raw@.take(i as int));
        if raw.get_char(i) == '\0' {
            if start < i {
                ids.push(String::from_str(raw.substring_char(start, i)));
                assert(texts(ids@) =~= texts(kept).push(before.last()));
            }
            assert(before.push(Seq::empty()).drop_last() =~= before);
            assert(raw@.subrange(i + 1, i + 1) =~= Seq::empty());
            start = i + 1;
        } else {
            let ghost grown = before.last().push(raw@[i as int]);
            assert(before.drop_last().push(grown).drop_last() =~= before.drop_last());
            assert(raw@.subrange(start as int, i + 1) =~= grown);
        }
        i += 1;
    }
    let ghost all = segments(raw@.take(n as int));
    let ghost kept = ids@;
    assert(raw@.take(n as int) =~= raw@);
    if start < n {
        ids.push(String::from_str(raw.substring_char(start, n)));
        assert(texts(ids@) =~= texts(kept).push(all.last()));
    }
    ids
}

/// Capacity in bytes of the buffer into which a property is read.
pub const PROPERTY_BUFFER_SIZE: usize = 512;

/// The UTF-16 code units that a property buffer holds: as many little-endian
/// byte pairs as fit in the reported size, and in the buffer.
pub open spec fn property_units(buffer: Seq<u8>, required_size: nat) -> Seq<u16> {
    let bytes = if required_size < buffer.len() {
        required_size
    } else {
        buffer.len()
    };
    Seq::new(bytes / 2, |k: int| (buffer[2 * k] + 256 * buffer[2 * k + 1]) as u16)
}

/// The text that lossy UTF-16 decoding gives for a sequence of code units.
pub uninterp spec fn utf16_lossy(units: Seq<u16>) -> Seq<char>;

/// Calls `String::from_utf16_lossy`. The contract names the decoded text
/// after the code units and claims nothing else of it; the call never
/// fails, as malformed units are replaced.
#[verifier::external_body]
fn string_from_utf16_lossy(units: &[u16]) -> (text: String)
    ensures
        text@ == utf16_lossy(units@),
{
    String::from_utf16_lossy(units)
}

/// Pairs the bytes of a property buffer into UTF-16 code units.
pub fn property_code_units(buffer: &[u8], required_size: u32) -> (units: Vec<u16>)
    ensures
        units@ == property_units(buffer@, required_size as nat),
{
    let bytes: usize = if (required_size as usize) < buffer.len() {
        required_size as usize
    } else {
        buffer.len()
    };
    let count: usize = bytes / 2;
    let mut units: Vec<u16> = Vec::new();
    let mut k: usize = 0;
    while k < count
        invariant
            k <= count,
            count == bytes / 2,
            bytes <= buffer@.len(),
            units@ == Seq::new(
                k as nat,
                |j: int| (buffer@[2 * j] + 256 * buffer@[2 * j + 1]) as u16,
            ),
        decreases count - k,
    {
        let low: u16 = buffer[2 * k] as u16;
        let high: u16 = buffer[2 * k + 1] as u16;
        let ghost before = units@;
        units.push(low + 256 * high);
        assert(units@ =~= Seq::new(
            (k + 1) as nat,
            |j: int| (buffer@[2 * j] + 256 * buffer@[2 * j + 1]) as u16,
        ));
        k += 1;
    }
    units
}

/// The text of a property after the query for it: absent when the query
/// failed, else the lossy UTF-16 decoding of what the buffer holds.
pub open spec fn property_text(success: bool, buffer: Seq<u8>, required_size: nat) -> Option<
    Seq<char>,
> {
    if success {
        Some(utf16_lossy(property_units(buffer, required_size)))
    } else {
        None
    }
}

/// Turns the outcome of a registry-property query into text. A reported
/// size beyond the buffer is cut to the buffer; a failed query gives no
/// text.
pub fn get_device_property(success: bool, buffer: &[u8], required_size: u32) -> (r: Option<String>)
    ensures
        match r {
            Some(text) => property_text(success, buffer@, required_size as nat) == Some(text@),
            None => property_text(success, buffer@, required_size as nat) is None,
        },
{
    if success {
        let units = property_code_units(buffer, required_size);
        Some(string_from_utf16_lossy(units.as_slice()))
    } else {
        None
    }
}

} // verus!
