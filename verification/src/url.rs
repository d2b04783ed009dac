//! The endpoint URL of a repository.

use vstd::prelude::*;
use vstd::string::*;
use vstd::utf8::*;

verus! {

/// Whether a byte stands for itself in a path segment: an ASCII letter, a
/// digit, or one of `-`, `.`, `_`, `~`.
pub open spec fn is_unreserved(b: u8) -> bool {
    ||| 0x30 <= b <= 0x39
    ||| 0x41 <= b <= 0x5a
    ||| 0x61 <= b <= 0x7a
    ||| b == 0x2d
    ||| b == 0x2e
    ||| b == 0x5f
    ||| b == 0x7e
}

/// The upper-case hexadecimal digit of a value below 16.
pub open spec fn hex_digit(d: u8) -> char {
    if d < 10 {
        (0x30 + d) as u8 as char
    } else {
        (0x37 + d) as u8 as char
    }
}

/// What one byte becomes in a path segment: itself where it is unreserved,
/// else `%` and its two hexadecimal digits.
pub open spec fn encoded_byte(b: u8) -> Seq<char> {
    if is_unreserved(b) {
        seq![b as char]
    } else {
        seq!['%', hex_digit(b / 16), hex_digit(b % 16)]
    }
}

/// The percent-encoding of a byte string.
pub open spec fn percent_encoded(bytes: Seq<u8>) -> Seq<char>
    decreases bytes.len(),
{
    if bytes.len() == 0 {
        Seq::empty()
    } else {
        percent_encoded(bytes.drop_last()) + encoded_byte(bytes.last())
    }
}

/// Whether a character can occur in a percent-encoded segment: an unreserved
/// ASCII character or `%`.
pub open spec fn is_segment_char(c: char) -> bool {
    ||| '0' <= c <= '9'
    ||| 'A' <= c <= 'Z'
    ||| 'a' <= c <= 'z'
    ||| c == '-'
    ||| c == '.'
    ||| c == '_'
    ||| c == '~'
    ||| c == '%'
}

/// The root of the repository endpoints.
pub open spec fn api_root() -> Seq<char> {
    "https://api.github.com/repos/"@
}

/// The endpoint URL of the repository `repo` of `owner`: the root, then the
/// two names percent-encoded as UTF-8, with one `/` between them.
pub open spec fn spec_api_url(owner: Seq<char>, repo: Seq<char>) -> Seq<char> {
    api_root() + percent_encoded(encode_utf8(owner)) + seq!['/'] + percent_encoded(
        encode_utf8(repo),
    )
}

/// `urlencoding::encode`, with its result taken as an owned string. It walks
/// the UTF-8 bytes of `text` and writes each unreserved byte as it is and
/// every other byte as `%` and two upper-case hexadecimal digits.
#[verifier::external_body]
fn percent_encode(text: &str) -> (r: String)
    ensures
        r@ == percent_encoded(encode_utf8(text@)),
{
    urlencoding::encode(text).into_owned()
}

/// Builds the endpoint URL of a repository from the owner's and the
/// repository's name. Any string is accepted for either.
pub fn api_url(owner: &str, repo: &str) -> (url: String)
    ensures
        url@ == spec_api_url(owner@, repo@),
{
    let owner_segment = percent_encode(owner);
    let repo_segment = percent_encode(repo);
    let mut url = String::from_str("https://api.github.com/repos/");
    url.append(owner_segment.as_str());
    url.append("/");
    url.append(repo_segment.as_str());
    proof {
        reveal_strlit("/");
        assert("/"@ =~= seq!['/']);
    }
    url
}

/// Every character of a percent-encoded byte string is a segment character.
pub proof fn lemma_percent_encoded_chars(bytes: Seq<u8>)
    ensures
        forall|i: int|
            0 <= i < percent_encoded(bytes).len() ==> is_segment_char(
                #[trigger] percent_encoded(bytes)[i],
            ),
    decreases bytes.len(),
{
    if bytes.len() > 0 {
        lemma_percent_encoded_chars(bytes.drop_last());
        let b = bytes.last();
        assert(forall|j: int|
            0 <= j < encoded_byte(b).len() ==> is_segment_char(#[trigger] encoded_byte(b)[j])) by {
            assert(is_segment_char(hex_digit(b / 16)));
            assert(is_segment_char(hex_digit(b % 16)));
        }
        let head = percent_encoded(bytes.drop_last());
        assert forall|i: int| 0 <= i < percent_encoded(bytes).len() implies is_segment_char(
            #[trigger] percent_encoded(bytes)[i],
        ) by {
            if i < head.len() {
                assert(percent_encoded(bytes)[i] == head[i]);
            } else {
                assert(percent_encoded(bytes)[i] == encoded_byte(b)[i - head.len()]);
            }
        }
    }
}

/// Whatever the two names hold, the URL is the root, the owner's segment, one
/// `/` and the repository's segment, and the two segments hold segment
/// characters only: no `/`, `?`, `#`, space or other reserved character of a
/// name reaches the URL unencoded.
pub proof fn lemma_api_url_segments(owner: Seq<char>, repo: Seq<char>)
    ensures
        ({
            let url = spec_api_url(owner, repo);
            let start = api_root().len();
            let slash = start + percent_encoded(encode_utf8(owner)).len();
            &&& url.len() == slash + 1 + percent_encoded(encode_utf8(repo)).len()
            &&& url.subrange(0, start as int) == api_root()
            &&& url[slash as int] == '/'
            &&& forall|i: int|
                start <= i < url.len() && i != slash ==> is_segment_char(#[trigger] url[i])
        }),
{
    lemma_percent_encoded_chars(encode_utf8(owner));
    lemma_percent_encoded_chars(encode_utf8(repo));
    let url = spec_api_url(owner, repo);
    let start = api_root().len();
    let first = percent_encoded(encode_utf8(owner));
    let second = percent_encoded(encode_utf8(repo));
    let slash = start + first.len();
    assert(url.subrange(0, start as int) =~= api_root());
    assert forall|i: int| start <= i < url.len() && i != slash implies is_segment_char(
        #[trigger] url[i],
    ) by {
        if i < slash {
            assert(url[i] == first[i - start]);
        } else {
            assert(url[i] == second[i - slash - 1]);
        }
    }
}

/// A percent-encoded byte string never ends in `%`, nor in `%` and one more
/// character.
proof fn lemma_percent_encoded_tail(bytes: Seq<u8>)
    ensures
        percent_encoded(bytes).len() >= bytes.len(),
        percent_encoded(bytes).len() >= 1 ==> percent_encoded(bytes).last() != '%',
        percent_encoded(bytes).len() >= 2 ==> percent_encoded(bytes)[percent_encoded(bytes).len()
            - 2] != '%',
    decreases bytes.len(),
{
    if bytes.len() > 0 {
        lemma_percent_encoded_tail(bytes.drop_last());
        let b = bytes.last();
        let head = percent_encoded(bytes.drop_last());
        let tail = encoded_byte(b);
        let whole = percent_encoded(bytes);
        assert(hex_digit(b / 16) != '%' && hex_digit(b % 16) != '%');
        assert(whole.last() == tail.last());
        if whole.len() >= 2 {
            if is_unreserved(b) {
                assert(whole[whole.len() - 2] == head[head.len() - 1]);
            } else {
                assert(whole[whole.len() - 2] == tail[1]);
            }
        }
    }
}

/// Percent-encoding loses nothing: byte strings with the same encoding are
/// the same.
pub proof fn lemma_percent_encoded_injective(a: Seq<u8>, b: Seq<u8>)
    requires
        percent_encoded(a) == percent_encoded(b),
    ensures
        a == b,
    decreases a.len() + b.len(),
{
    lemma_percent_encoded_tail(a);
    lemma_percent_encoded_tail(b);
    if a.len() == 0 || b.len() == 0 {
        assert(a =~= b);
    } else {
        let whole = percent_encoded(a);
        let x = a.last();
        let y = b.last();
        let head_a = percent_encoded(a.drop_last());
        let head_b = percent_encoded(b.drop_last());
        lemma_percent_encoded_tail(a.drop_last());
        lemma_percent_encoded_tail(b.drop_last());
        assert(whole == head_a + encoded_byte(x));
        assert(whole == head_b + encoded_byte(y));
        if is_unreserved(x) && !is_unreserved(y) {
            assert(whole[whole.len() - 3] == encoded_byte(y)[0]);
            assert(whole[whole.len() - 3] == head_a[head_a.len() - 2]);
            assert(false);
        }
        if !is_unreserved(x) && is_unreserved(y) {
            assert(whole[whole.len() - 3] == encoded_byte(x)[0]);
            assert(whole[whole.len() - 3] == head_b[head_b.len() - 2]);
            assert(false);
        }
        let width = encoded_byte(x).len();
        assert(encoded_byte(y).len() == width);
        assert(head_a =~= whole.subrange(0, whole.len() - width));
        assert(head_b =~= whole.subrange(0, whole.len() - width));
        assert(encoded_byte(x) =~= whole.subrange(whole.len() - width, whole.len() as int));
        assert(encoded_byte(y) =~= whole.subrange(whole.len() - width, whole.len() as int));
        if is_unreserved(x) {
            assert(encoded_byte(x)[0] == encoded_byte(y)[0]);
        } else {
            assert(encoded_byte(x)[1] == encoded_byte(y)[1]);
            assert(encoded_byte(x)[2] == encoded_byte(y)[2]);
            assert(x / 16 == y / 16 && x % 16 == y % 16);
        }
        assert(x == y);
        lemma_percent_encoded_injective(a.drop_last(), b.drop_last());
        assert(a =~= a.drop_last().push(x));
        assert(b =~= b.drop_last().push(y));
    }
}

/// Different repositories have different URLs: the URL gives back the two
/// names it was built from.
pub proof fn lemma_api_url_injective(
    owner: Seq<char>,
    repo: Seq<char>,
    other_owner: Seq<char>,
    other_repo: Seq<char>,
)
    requires
        spec_api_url(owner, repo) == spec_api_url(other_owner, other_repo),
    ensures
        owner == other_owner,
        repo == other_repo,
{
    let url = spec_api_url(owner, repo);
    let start = api_root().len() as int;
    let first = percent_encoded(encode_utf8(owner));
    let second = percent_encoded(encode_utf8(repo));
    let other_first = percent_encoded(encode_utf8(other_owner));
    let other_second = percent_encoded(encode_utf8(other_repo));
    lemma_api_url_segments(owner, repo);
    lemma_api_url_segments(other_owner, other_repo);
    assert(!is_segment_char('/'));
    if first.len() < other_first.len() {
        assert(is_segment_char(url[start + first.len()]));
        assert(false);
    }
    if other_first.len() < first.len() {
        assert(is_segment_char(url[start + other_first.len()]));
        assert(false);
    }
    let slash = start + first.len() as int;
    assert(first =~= url.subrange(start, slash));
    assert(other_first =~= url.subrange(start, slash));
    assert(second =~= url.subrange(slash + 1, url.len() as int));
    assert(other_second =~= url.subrange(slash + 1, url.len() as int));
    lemma_percent_encoded_injective(encode_utf8(owner), encode_utf8(other_owner));
    lemma_percent_encoded_injective(encode_utf8(repo), encode_utf8(other_repo));
    encode_utf8_decode_utf8(owner);
    encode_utf8_decode_utf8(other_owner);
    encode_utf8_decode_utf8(repo);
    encode_utf8_decode_utf8(other_repo);
}

} // verus!
