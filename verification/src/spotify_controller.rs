//! Pausing music on wake word through the `spotify-control` REST service.
//!
//! The HTTP exchange itself is I/O and happens outside the library; here
//! stand the request that is sent and the reading of the reply.
use vstd::prelude::*;
use crate::text::{push_str, string_from_utf8_lossy, string_of, utf8_lossy};

verus! {

/// Bytes read from the socket at a time.
pub const READ_CHUNK_BYTES: usize = 512;

/// The reply is read up to this many bytes.
pub const MAX_RESPONSE_BYTES: usize = 8192;

#[derive(Clone)]
pub struct SpotifyController {
    /// `host:port` of the spotify-control service.
    endpoint: String,
}

/// `needle` occurs in `h` at index `i`.
pub open spec fn occurs_at(h: Seq<u8>, needle: Seq<u8>, i: int) -> bool {
    0 <= i && i + needle.len() <= h.len() && h.subrange(i, i + needle.len()) == needle
}

/// The first index at or after `i` where `needle` occurs in `h`.
pub open spec fn first_occurrence_from(h: Seq<u8>, needle: Seq<u8>, i: int) -> Option<int>
    decreases h.len() + 1 - i,
{
    if i < 0 || i + needle.len() > h.len() {
        None
    } else if occurs_at(h, needle, i) {
        Some(i)
    } else {
        first_occurrence_from(h, needle, i + 1)
    }
}

pub proof fn lemma_first_occurrence_from(h: Seq<u8>, needle: Seq<u8>, i: int)
    requires
        0 <= i,
    ensures
        first_occurrence_from(h, needle, i) matches Some(p) ==> i <= p && occurs_at(h, needle, p)
            && forall|j: int| i <= j < p ==> !occurs_at(h, needle, j),
        first_occurrence_from(h, needle, i) is None ==> forall|j: int| i <= j ==> !occurs_at(h, needle, j),
    decreases h.len() + 1 - i,
{
    if i + needle.len() <= h.len() && !occurs_at(h, needle, i) {
        lemma_first_occurrence_from(h, needle, i + 1);
    }
}

proof fn lemma_first_occurrence_is(h: Seq<u8>, needle: Seq<u8>, i: int, p: int)
    requires
        0 <= i <= p,
        occurs_at(h, needle, p),
        forall|j: int| i <= j < p ==> !occurs_at(h, needle, j),
    ensures
        first_occurrence_from(h, needle, i) == Some(p),
    decreases p - i,
{
    if i < p {
        lemma_first_occurrence_is(h, needle, i + 1, p);
    }
}

proof fn lemma_first_occurrence_none(h: Seq<u8>, needle: Seq<u8>, i: int)
    requires
        0 <= i,
        forall|j: int| i <= j ==> !occurs_at(h, needle, j),
    ensures
        first_occurrence_from(h, needle, i) is None,
    decreases h.len() + 1 - i,
{
    if i + needle.len() <= h.len() {
        lemma_first_occurrence_none(h, needle, i + 1);
    }
}

/// The bytes `"paused"`, quotes included.
pub open spec fn paused_key() -> Seq<u8> {
    seq![34u8, 112u8, 97u8, 117u8, 115u8, 101u8, 100u8, 34u8]
}

/// The bytes `true`.
pub open spec fn true_bytes() -> Seq<u8> {
    seq![116u8, 114u8, 117u8, 101u8]
}

pub open spec fn is_blank(c: u8) -> bool {
    c == 32 || c == 9
}

/// The first index at or after `j` that is not a space or tab.
pub open spec fn skip_blanks(b: Seq<u8>, j: int) -> int
    decreases b.len() - j,
{
    if 0 <= j < b.len() && is_blank(b[j]) {
        skip_blanks(b, j + 1)
    } else {
        j
    }
}

proof fn lemma_skip_blanks(b: Seq<u8>, j: int)
    ensures
        skip_blanks(b, j) >= j,
        j <= b.len() ==> skip_blanks(b, j) <= b.len(),
    decreases b.len() - j,
{
    if 0 <= j < b.len() && is_blank(b[j]) {
        lemma_skip_blanks(b, j + 1);
    }
}

/// Whether `b` reports `"paused": true`, looking from index `i` on: at each
/// occurrence of `"paused"` (first to last), blanks and then `:` mean the
/// answer is whether the value after further blanks starts with `true`;
/// without the `:` the search goes on after that occurrence.
pub open spec fn paused_from(b: Seq<u8>, i: int) -> bool
    decreases b.len() + 1 - i,
{
    if i < 0 {
        false
    } else {
        match first_occurrence_from(b, paused_key(), i) {
            None => false,
            Some(p) => {
                let j = skip_blanks(b, p + 8);
                if j < b.len() && b[j] == 58u8 {
                    let k = skip_blanks(b, j + 1);
                    k + 4 <= b.len() && b.subrange(k, k + 4) == true_bytes()
                } else {
                    proof {
                        lemma_first_occurrence_from(b, paused_key(), i);
                    }
                    paused_from(b, p + 8)
                }
            },
        }
    }
}

/// Whether a JSON response text reports `"paused": true`.
pub open spec fn reports_paused(response: Seq<char>) -> bool {
    paused_from(vstd::utf8::encode_utf8(response), 0)
}

/// The first index where `needle` occurs in `haystack`; `None` for an empty
/// needle or when it does not occur.
pub fn find_subslice(haystack: &[u8], needle: &[u8]) -> (r: Option<usize>)
    ensures
        needle@.len() == 0 ==> r is None,
        needle@.len() > 0 ==> match r {
            Some(p) => occurs_at(haystack@, needle@, p as int) && forall|j: int|
                0 <= j < p ==> !occurs_at(haystack@, needle@, j),
            None => forall|j: int| !occurs_at(haystack@, needle@, j),
        },
        needle@.len() > 0 ==> r == match first_occurrence_from(haystack@, needle@, 0) {
            Some(p) => Some(p as usize),
            None => None::<usize>,
        },
{
    if needle.len() == 0 || haystack.len() < needle.len() {
        proof {
            lemma_first_occurrence_from(haystack@, needle@, 0);
        }
        return None;
    }
    let last = haystack.len() - needle.len();
    let mut i: usize = 0;
    assert(haystack@.len() == haystack.len());
    while i <= last
        invariant
            0 <= i <= last + 1,
            last + needle@.len() == haystack@.len(),
            haystack@.len() <= usize::MAX,
            needle@.len() > 0,
            first_occurrence_from(haystack@, needle@, i as int) == first_occurrence_from(haystack@, needle@, 0),
        decreases last + 1 - i,
    {
        // compare the window starting at i
        let mut k: usize = 0;
        while k < needle.len() && haystack[i + k] == needle[k]
            invariant
                0 <= k <= needle@.len(),
                i <= last,
                last + needle@.len() == haystack@.len(),
                haystack@.len() <= usize::MAX,
                forall|m: int| 0 <= m < k ==> haystack@[i + m] == needle@[m],
            decreases needle@.len() - k,
        {
            k += 1;
        }
        if k == needle.len() {
            proof {
                assert(haystack@.subrange(i as int, i + needle@.len()) =~= needle@);
                lemma_first_occurrence_from(haystack@, needle@, 0);
            }
            return Some(i);
        }
        proof {
            assert(haystack@.subrange(i as int, i + needle@.len())[k as int] != needle@[k as int]);
        }
        i += 1;
    }
    proof {
        lemma_first_occurrence_from(haystack@, needle@, 0);
    }
    None
}

fn skip_blanks_exec(b: &[u8], j: usize) -> (r: usize)
    requires
        j <= b@.len(),
    ensures
        r == skip_blanks(b@, j as int),
        j <= r <= b@.len(),
{
    let mut k = j;
    while k < b.len() && (b[k] == 32 || b[k] == 9)
        invariant
            j <= k <= b@.len(),
            skip_blanks(b@, k as int) == skip_blanks(b@, j as int),
        decreases b@.len() - k,
    {
        k += 1;
    }
    k
}

/// Minimal check for `"paused": true` in a JSON response body, tolerant of
/// spaces and tabs around the `:`.
pub fn parse_paused(response: &str) -> (r: bool)
    ensures
        r == reports_paused(response@),
{
    let bytes = response.as_bytes();
    let needle: [u8; 8] = [34, 112, 97, 117, 115, 101, 100, 34];
    assert(needle@ =~= paused_key());
    let mut i: usize = 0;
    while i <= bytes.len()
        invariant
            i <= bytes@.len(),
            bytes@ == vstd::utf8::encode_utf8(response@),
            needle@ == paused_key(),
            paused_from(bytes@, i as int) == paused_from(bytes@, 0),
        decreases bytes@.len() - i,
    {
        let rest = vstd::slice::slice_subrange(bytes, i, bytes.len());
        let found = find_subslice(rest, needle.as_slice());
        proof {
            lemma_shift_occurrence(bytes@, paused_key(), i as int);
        }
        match found {
            None => {
                proof {
                    assert forall|j: int| i <= j implies !occurs_at(bytes@, paused_key(), j) by {
                        if occurs_at(bytes@, paused_key(), j) {
                            assert(occurs_at(rest@, paused_key(), j - i));
                        }
                    }
                    lemma_first_occurrence_none(bytes@, paused_key(), i as int);
                }
                return false;
            },
            Some(pos) => {
                let p = i + pos;
                proof {
                    assert(occurs_at(rest@, paused_key(), pos as int));
                    assert forall|j: int| i <= j < p implies !occurs_at(bytes@, paused_key(), j) by {
                        if occurs_at(bytes@, paused_key(), j) {
                            assert(occurs_at(rest@, paused_key(), j - i));
                        }
                    }
                    lemma_first_occurrence_is(bytes@, paused_key(), i as int, p as int);
                }
                let j = skip_blanks_exec(bytes, p + 8);
                if j < bytes.len() && bytes[j] == 58 {
                    let k = skip_blanks_exec(bytes, j + 1);
                    if bytes.len() >= 4 && k <= bytes.len() - 4 && bytes[k] == 116 && bytes[k + 1] == 114
                        && bytes[k + 2] == 117 && bytes[k + 3] == 101 {
                        assert(bytes@.subrange(k as int, k + 4) =~= true_bytes());
                        return true;
                    } else {
                        proof {
                            if k + 4 <= bytes@.len() {
                                assert(bytes@.subrange(k as int, k + 4) != true_bytes()) by {
                                    if bytes@.subrange(k as int, k + 4) == true_bytes() {
                                        assert(bytes@.subrange(k as int, k + 4)[0] == 116u8);
                                        assert(bytes@.subrange(k as int, k + 4)[1] == 114u8);
                                        assert(bytes@.subrange(k as int, k + 4)[2] == 117u8);
                                        assert(bytes@.subrange(k as int, k + 4)[3] == 101u8);
                                    }
                                }
                            }
                        }
                        return false;
                    }
                }
                i = p + 8;
            },
        }
    }
    false
}

/// An occurrence in `h[i..]` found at `p` is an occurrence in `h` at `i + p`.
proof fn lemma_shift_occurrence(h: Seq<u8>, needle: Seq<u8>, i: int)
    requires
        0 <= i <= h.len(),
    ensures
        forall|p: int| occurs_at(h.subrange(i, h.len() as int), needle, p) <==> p >= 0 && occurs_at(h, needle, i + p),
{
    let r = h.subrange(i, h.len() as int);
    assert forall|p: int| occurs_at(r, needle, p) <==> p >= 0 && occurs_at(h, needle, i + p) by {
        if 0 <= p && p + needle.len() <= r.len() {
            assert(r.subrange(p, p + needle.len()) =~= h.subrange(i + p, i + p + needle.len()));
        }
    }
}

impl SpotifyController {
    pub fn new(endpoint: String) -> (r: Self)
        ensures
            r.endpoint() == endpoint@,
    {
        Self { endpoint }
    }

    /// The `host:port` of the service.
    pub closed spec fn endpoint(&self) -> Seq<char> {
        self.endpoint@
    }

    /// The `host:port` of the service.
    pub fn endpoint_address(&self) -> (r: &str)
        ensures
            r@ == self.endpoint(),
    {
        self.endpoint.as_str()
    }

    /// Adds bytes read from the service to the reply collected so far, and
    /// says whether to stop reading: at the end of the reply (nothing was
    /// read) or once [`MAX_RESPONSE_BYTES`] bytes are collected.
    pub fn collect_response(reply: &mut Vec<u8>, read: &[u8]) -> (stop: bool)
        ensures
            final(reply)@ == old(reply)@ + read@,
            stop == (read@.len() == 0 || final(reply)@.len() >= MAX_RESPONSE_BYTES),
    {
        if read.len() == 0 {
            assert(old(reply)@ + read@ =~= old(reply)@);
            return true;
        }
        let mut k: usize = 0;
        while k < read.len()
            invariant
                k <= read@.len(),
                reply@ == old(reply)@ + read@.subrange(0, k as int),
            decreases read@.len() - k,
        {
            reply.push(read[k]);
            assert(read@.subrange(0, k + 1) =~= read@.subrange(0, k as int).push(read@[k as int]));
            k += 1;
        }
        assert(read@.subrange(0, k as int) =~= read@);
        reply.len() >= MAX_RESPONSE_BYTES
    }

    /// The HTTP request that asks the service to pause playback.
    pub fn pause_request(&self) -> (r: String)
        ensures
            r@ == "POST /api/spotify/pause HTTP/1.1\r\nHost: "@ + self.endpoint()
                + "\r\nContent-Type: application/json\r\nContent-Length: 0\r\nConnection: close\r\n\r\n"@,
    {
        let mut s = string_of("POST /api/spotify/pause HTTP/1.1\r\nHost: ");
        push_str(&mut s, self.endpoint.as_str());
        push_str(&mut s, "\r\nContent-Type: application/json\r\nContent-Length: 0\r\nConnection: close\r\n\r\n");
        s
    }

    /// Whether the raw reply of the service reports that playback was paused.
    pub fn paused_from_response(response: &[u8]) -> (r: bool)
        ensures
            r == reports_paused(utf8_lossy(response@)),
    {
        let body = string_from_utf8_lossy(response);
        parse_paused(body.as_str())
    }
}

} // verus!
