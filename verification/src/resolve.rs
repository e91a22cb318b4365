use vstd::prelude::*;

use crate::asset::append_bytes;
use crate::errors::ResolveError;

verus! {

/// A byte is an ASCII decimal digit.
pub open spec fn is_digit(b: u8) -> bool {
    ('0' as u8) <= b <= ('9' as u8)
}

/// End of the run of digits that starts at `j`: the first index at or after
/// `j` that holds a non-digit, or the end of the text.
pub open spec fn digit_run_end(s: Seq<u8>, j: int) -> int
    decreases s.len() - j,
{
    if j < 0 || j >= s.len() {
        s.len() as int
    } else if is_digit(s[j]) {
        digit_run_end(s, j + 1)
    } else {
        j
    }
}

/// The content-identifier pattern sits at `i`: a slash, then at least one
/// digit, then a question mark right after the digits.
pub open spec fn match_at(s: Seq<u8>, i: int) -> bool {
    let e = digit_run_end(s, i + 1);
    &&& 0 <= i < s.len()
    &&& s[i] == ('/' as u8)
    &&& e > i + 1
    &&& e < s.len()
    &&& s[e] == ('?' as u8)
}

/// Position of the leftmost identifier pattern at or after `i`, or the text
/// length when there is none.
pub open spec fn first_match_from(s: Seq<u8>, i: int) -> int
    decreases s.len() - i,
{
    if i < 0 || i >= s.len() {
        s.len() as int
    } else if match_at(s, i) {
        i
    } else {
        first_match_from(s, i + 1)
    }
}

/// The content identifier embedded in a canonical link: the digits of the
/// leftmost `/<digits>?` pattern, or empty when no such pattern occurs.
pub open spec fn extract_id_spec(s: Seq<u8>) -> Seq<u8> {
    let i = first_match_from(s, 0);
    if i < s.len() {
        s.subrange(i + 1, digit_run_end(s, i + 1))
    } else {
        Seq::<u8>::empty()
    }
}

/// Pull the content identifier out of a canonical link: the digits of the
/// leftmost slash-digits-question-mark pattern. A link without such a
/// pattern yields the empty identifier.
pub fn extract_aweme_id(url: &Vec<u8>) -> (r: Vec<u8>)
    ensures
        r@ == extract_id_spec(url@),
{
    let n = url.len();
    let mut i: usize = 0;
    while i < n
        invariant
            n == url@.len(),
            0 <= i <= n,
            first_match_from(url@, 0) == first_match_from(url@, i as int),
        decreases n - i,
    {
        if url[i] == ('/' as u8) {
            let mut j: usize = i + 1;
            while j < n && url[j] >= ('0' as u8) && url[j] <= ('9' as u8)
                invariant
                    n == url@.len(),
                    i + 1 <= j <= n,
                    digit_run_end(url@, i + 1) == digit_run_end(url@, j as int),
                decreases n - j,
            {
                proof {
                    assert(digit_run_end(url@, j as int) == digit_run_end(url@, j + 1));
                }
                j = j + 1;
            }
            proof {
                assert(digit_run_end(url@, i + 1) == j);
            }
            if j > i + 1 && j < n && url[j] == ('?' as u8) {
                proof {
                    assert(match_at(url@, i as int));
                    assert(first_match_from(url@, i as int) == i);
                }
                let mut out: Vec<u8> = Vec::new();
                let mut k: usize = i + 1;
                while k < j
                    invariant
                        n == url@.len(),
                        i + 1 <= k <= j <= n,
                        out@ == url@.subrange(i + 1, k as int),
                    decreases j - k,
                {
                    out.push(url[k]);
                    proof {
                        assert(out@ =~= url@.subrange(i + 1, k + 1));
                    }
                    k = k + 1;
                }
                return out;
            }
            proof {
                assert(!match_at(url@, i as int));
                assert(first_match_from(url@, i as int) == first_match_from(url@, i + 1));
            }
        } else {
            proof {
                assert(!match_at(url@, i as int));
                assert(first_match_from(url@, i as int) == first_match_from(url@, i + 1));
            }
        }
        i = i + 1;
    }
    proof {
        assert(first_match_from(url@, 0) == url@.len());
    }
    Vec::<u8>::new()
}

/// `h` with every occurrence of `needle` replaced by `repl`: the text is
/// scanned left to right, each occurrence found is replaced whole, and the
/// replacement text is never rescanned. An empty needle replaces nothing.
pub open spec fn replace_spec(h: Seq<u8>, needle: Seq<u8>, repl: Seq<u8>) -> Seq<u8>
    decreases h.len(),
{
    if needle.len() == 0 || h.len() < needle.len() {
        h
    } else if h.subrange(0, needle.len() as int) == needle {
        repl + replace_spec(h.skip(needle.len() as int), needle, repl)
    } else {
        seq![h[0]] + replace_spec(h.skip(1), needle, repl)
    }
}

/// The needle sits in `h` at position `i`.
fn matches_at(h: &Vec<u8>, i: usize, needle: &Vec<u8>) -> (r: bool)
    requires
        i <= h@.len(),
    ensures
        r == (i + needle@.len() <= h@.len() && h@.subrange(
            i as int,
            i + needle@.len(),
        ) == needle@),
{
    if needle.len() > h.len() - i {
        return false;
    }
    let hn = h.len();
    let mut k: usize = 0;
    while k < needle.len()
        invariant
            hn == h@.len(),
            i + needle@.len() <= hn,
            0 <= k <= needle@.len(),
            forall|m: int| 0 <= m < k ==> h@[i + m] == needle@[m],
        decreases needle@.len() - k,
    {
        if h[i + k] != needle[k] {
            proof {
                assert(h@.subrange(i as int, i + needle@.len())[k as int] != needle@[k as int]);
            }
            return false;
        }
        k = k + 1;
    }
    proof {
        assert(h@.subrange(i as int, i + needle@.len()) =~= needle@);
    }
    true
}

/// Replace every occurrence of `needle` in `h` by `repl`, left to right.
pub fn replace_bytes(h: &Vec<u8>, needle: &Vec<u8>, repl: &Vec<u8>) -> (r: Vec<u8>)
    requires
        needle@.len() > 0,
    ensures
        r@ == replace_spec(h@, needle@, repl@),
{
    let mut out: Vec<u8> = Vec::new();
    let mut i: usize = 0;
    proof {
        assert(h@.skip(0) =~= h@);
        assert(Seq::<u8>::empty() + replace_spec(h@, needle@, repl@) =~= replace_spec(
            h@,
            needle@,
            repl@,
        ));
    }
    while i < h.len()
        invariant
            0 <= i <= h@.len(),
            needle@.len() > 0,
            replace_spec(h@, needle@, repl@) == out@ + replace_spec(
                h@.skip(i as int),
                needle@,
                repl@,
            ),
        decreases h@.len() - i,
    {
        let ghost tail = h@.skip(i as int);
        if matches_at(h, i, needle) {
            proof {
                assert(tail.subrange(0, needle@.len() as int) =~= h@.subrange(
                    i as int,
                    i + needle@.len(),
                ));
                assert(tail.skip(needle@.len() as int) =~= h@.skip(i + needle@.len()));
                assert(replace_spec(tail, needle@, repl@) == repl@ + replace_spec(
                    h@.skip(i + needle@.len()),
                    needle@,
                    repl@,
                ));
                assert(out@ + (repl@ + replace_spec(h@.skip(i + needle@.len()), needle@, repl@))
                    =~= (out@ + repl@) + replace_spec(h@.skip(i + needle@.len()), needle@, repl@));
            }
            append_bytes(&mut out, repl);
            i = i + needle.len();
        } else {
            proof {
                if i + needle@.len() <= h@.len() {
                    assert(tail.subrange(0, needle@.len() as int) =~= h@.subrange(
                        i as int,
                        i + needle@.len(),
                    ));
                    assert(tail.subrange(0, needle@.len() as int) != needle@);
                }
                assert(tail.skip(1) =~= h@.skip(i + 1));
                assert(tail[0] == h@[i as int]);
                assert(replace_spec(tail, needle@, repl@) == seq![h@[i as int]] + replace_spec(
                    h@.skip(i + 1),
                    needle@,
                    repl@,
                ));
                assert(out@ + (seq![h@[i as int]] + replace_spec(h@.skip(i + 1), needle@, repl@))
                    =~= out@.push(h@[i as int]) + replace_spec(h@.skip(i + 1), needle@, repl@));
            }
            out.push(h[i]);
            i = i + 1;
        }
    }
    proof {
        assert(h@.skip(i as int) =~= Seq::<u8>::empty());
        assert(replace_spec(h@.skip(i as int), needle@, repl@) == h@.skip(i as int));
        assert(out@ + h@.skip(i as int) =~= out@);
    }
    out
}

/// The watermarked play URL marker.
pub open spec fn playwm_pat() -> Seq<u8> {
    seq!['p' as u8, 'l' as u8, 'a' as u8, 'y' as u8, 'w' as u8, 'm' as u8]
}

/// The watermark-free play URL marker.
pub open spec fn play_rep() -> Seq<u8> {
    seq!['p' as u8, 'l' as u8, 'a' as u8, 'y' as u8]
}

/// The 720p ratio marker.
pub open spec fn ratio720_pat() -> Seq<u8> {
    seq![
        'r' as u8,
        'a' as u8,
        't' as u8,
        'i' as u8,
        'o' as u8,
        '=' as u8,
        '7' as u8,
        '2' as u8,
        '0' as u8,
        'p' as u8,
    ]
}

/// The 1080p ratio marker.
pub open spec fn ratio1080_rep() -> Seq<u8> {
    seq![
        'r' as u8,
        'a' as u8,
        't' as u8,
        'i' as u8,
        'o' as u8,
        '=' as u8,
        '1' as u8,
        '0' as u8,
        '8' as u8,
        '0' as u8,
        'p' as u8,
    ]
}

/// The watermark-free, high-resolution form of a raw video URL: the
/// watermarked play marker replaced by the plain one, then the 720p ratio
/// marker replaced by the 1080p one.
pub open spec fn rewrite_video_url_spec(u: Seq<u8>) -> Seq<u8> {
    replace_spec(replace_spec(u, playwm_pat(), play_rep()), ratio720_pat(), ratio1080_rep())
}

/// Turn a raw video URL into its watermark-free, high-resolution form.
pub fn rewrite_video_url(url: &Vec<u8>) -> (r: Vec<u8>)
    ensures
        r@ == rewrite_video_url_spec(url@),
{
    let mut pat1: Vec<u8> = Vec::new();
    pat1.push('p' as u8);
    pat1.push('l' as u8);
    pat1.push('a' as u8);
    pat1.push('y' as u8);
    pat1.push('w' as u8);
    pat1.push('m' as u8);
    let mut rep1: Vec<u8> = Vec::new();
    rep1.push('p' as u8);
    rep1.push('l' as u8);
    rep1.push('a' as u8);
    rep1.push('y' as u8);
    let mut pat2: Vec<u8> = Vec::new();
    pat2.push('r' as u8);
    pat2.push('a' as u8);
    pat2.push('t' as u8);
    pat2.push('i' as u8);
    pat2.push('o' as u8);
    pat2.push('=' as u8);
    pat2.push('7' as u8);
    pat2.push('2' as u8);
    pat2.push('0' as u8);
    pat2.push('p' as u8);
    let mut rep2: Vec<u8> = Vec::new();
    rep2.push('r' as u8);
    rep2.push('a' as u8);
    rep2.push('t' as u8);
    rep2.push('i' as u8);
    rep2.push('o' as u8);
    rep2.push('=' as u8);
    rep2.push('1' as u8);
    rep2.push('0' as u8);
    rep2.push('8' as u8);
    rep2.push('0' as u8);
    rep2.push('p' as u8);
    proof {
        assert(pat1@ =~= playwm_pat());
        assert(rep1@ =~= play_rep());
        assert(pat2@ =~= ratio720_pat());
        assert(rep2@ =~= ratio1080_rep());
    }
    let step1 = replace_bytes(url, &pat1, &rep1);
    replace_bytes(&step1, &pat2, &rep2)
}

/// The JSON value type of the json crate, declared so that a metadata value
/// can pass through signatures here; the library never looks inside one.
#[verifier::external_type_specification]
#[verifier::external_body]
pub struct ExJsonValue(json::JsonValue);

/// The error type of the json crate's parser.
#[verifier::external_type_specification]
#[verifier::external_body]
pub struct ExJsonError(json::Error);

/// Whether a text is parseable JSON, as json::parse judges it. That verdict
/// depends on the characters of the text alone.
pub uninterp spec fn json_parses(s: Seq<char>) -> bool;

/// Relies on json::parse: the text either parses to a JSON value or is
/// rejected with a parse error, and which of the two happens depends on the
/// text alone.
#[verifier::external_body]
fn parse_json(s: &str) -> (r: Result<json::JsonValue, json::Error>)
    ensures
        r is Ok <==> json_parses(s@),
{
    json::parse(s)
}

/// Relies on json's Index over member names: the named member of an
/// object, or JSON null for a missing member or a non-object.
#[verifier::external_body]
fn json_member<'a>(v: &'a json::JsonValue, key: &str) -> (r: &'a json::JsonValue) {
    &v[key]
}

/// Relies on json's Index over positions: the element of an array at the
/// position, or JSON null for an out-of-bounds position or a non-array.
#[verifier::external_body]
fn json_at<'a>(v: &'a json::JsonValue, index: usize) -> (r: &'a json::JsonValue) {
    &v[index]
}

/// Relies on json's Display: a string value prints as its own text, any
/// other value as serialized JSON.
#[verifier::external_body]
fn json_text(v: &json::JsonValue) -> (r: Vec<u8>) {
    v.to_string().into_bytes()
}

/// The resolved asset URLs and content identifier of one shared item.
pub struct Link {
    pub aweme_id: Vec<u8>,
    pub video_url: Vec<u8>,
    pub cover_url: Vec<u8>,
    pub music_url: Vec<u8>,
}

/// Assemble the resolved link from the texts looked up in the metadata,
/// whatever those lookups returned: the video text is rewritten to its
/// watermark-free, high-resolution form, the cover and music texts are
/// taken verbatim, the identifier is carried through.
pub fn assemble_link(
    aweme_id: Vec<u8>,
    video_raw: &Vec<u8>,
    cover_raw: Vec<u8>,
    music_raw: Vec<u8>,
) -> (link: Link)
    ensures
        link.aweme_id@ == aweme_id@,
        link.video_url@ == rewrite_video_url_spec(video_raw@),
        link.cover_url@ == cover_raw@,
        link.music_url@ == music_raw@,
{
    let video_url = rewrite_video_url(video_raw);
    Link { aweme_id, video_url, cover_url: cover_raw, music_url: music_raw }
}

/// Resolve one shared item's assets from what the two network reads
/// returned: the canonical link the share redirected to, and the item's
/// metadata document. The identifier is the digits of the canonical link's
/// leftmost slash-digits-question-mark pattern; the three URLs are read out
/// of the metadata, the video one rewritten to its watermark-free,
/// high-resolution form by `assemble_link`, whose contract pins that step
/// exactly. Succeeds if and only if the metadata text is parseable JSON.
pub fn resolve_link(real_url: &Vec<u8>, api_body: &str) -> (r: Result<Link, ResolveError>)
    ensures
        r is Ok <==> json_parses(api_body@),
        r matches Ok(link) ==> link.aweme_id@ == extract_id_spec(real_url@),
        r is Err ==> r == Err::<Link, ResolveError>(ResolveError::MetadataUnparseable),
{
    let aweme_id = extract_aweme_id(real_url);
    match parse_json(api_body) {
        Err(_) => Err(ResolveError::MetadataUnparseable),
        Ok(doc) => {
            let item = json_at(json_member(&doc, "item_list"), 0);
            let video_raw = json_text(
                json_at(
                    json_member(json_member(json_member(item, "video"), "play_addr"), "url_list"),
                    0,
                ),
            );
            let cover_raw = json_text(
                json_at(
                    json_member(
                        json_member(json_member(item, "video"), "origin_cover"),
                        "url_list",
                    ),
                    0,
                ),
            );
            let music_raw = json_text(
                json_at(
                    json_member(json_member(json_member(item, "music"), "play_url"), "url_list"),
                    0,
                ),
            );
            Ok(assemble_link(aweme_id, &video_raw, cover_raw, music_raw))
        },
    }
}

} // verus!
