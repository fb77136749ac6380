//! The URLs of the image service's search and direct lookup.
//!
//! A search for a topic and a page is the URL
//! `<api>/search?q=<topic>&page=<n>`, with the topic percent-encoded, and a
//! lookup of one image is `<api>/w/<id>`. Empty input is refused before any
//! request is made.

use vstd::prelude::*;
use vstd::string::StringSliceAdditionalSpecFns;
use vstd::utf8::encode_utf8;

verus! {

/// The base of the service's API.
pub const WALLHAVEN_SEARCH_API: &'static str = "https://wallhaven.cc/api/v1";

/// The search path and its query parameter, up to the topic.
pub const WALLHAVEN_SEARCH_PARAM: &'static str = "search?q=";

/// The name of the page parameter.
pub const WALLHAVEN_SEARCH_PAGE: &'static str = "page";

/// The base of the lookup of one image by its identifier.
pub const WALLHAVEN_DIRECT_ID: &'static str = "https://wallhaven.cc/api/v1/w";

/// The product name sent, with the version, as the `User-Agent` of every request.
pub const USER_AGENT_PRODUCT: &'static str = "wallpaper_changer";

/// Upper-case hexadecimal digits, by value.
pub const HEX_DIGITS: &'static str = "0123456789ABCDEF";

/// Decimal digits, by value.
pub const DECIMAL_DIGITS: &'static str = "0123456789";

/// Why a search could not be made.
#[derive(Debug, Clone, Copy, PartialEq, Eq, Structural)]
pub enum SearchError {
    /// The topic or identifier is empty or missing, or the page is 0.
    InvalidInput,
    /// The request failed.
    Network,
    /// The response is not the JSON that was expected.
    Decode,
}

/// Characters that stand for themselves in a URL query.
pub open spec fn is_unreserved(c: char) -> bool {
    ||| 'A' <= c <= 'Z'
    ||| 'a' <= c <= 'z'
    ||| '0' <= c <= '9'
    ||| c == '-'
    ||| c == '.'
    ||| c == '_'
    ||| c == '~'
}

/// `%XX` for each of `bytes`, with upper-case hexadecimal digits.
pub open spec fn percent_bytes(bytes: Seq<u8>) -> Seq<char>
    decreases bytes.len(),
{
    if bytes.len() == 0 {
        Seq::empty()
    } else {
        let b = bytes.last();
        percent_bytes(bytes.drop_last()) + seq![
            '%',
            HEX_DIGITS@[(b / 16) as int],
            HEX_DIGITS@[(b % 16) as int],
        ]
    }
}

/// `s` percent-encoded: unreserved characters stay, every other character
/// becomes the `%XX` of each byte of its UTF-8 encoding.
pub open spec fn percent_encoded(s: Seq<char>) -> Seq<char>
    decreases s.len(),
{
    if s.len() == 0 {
        Seq::empty()
    } else {
        let c = s.last();
        percent_encoded(s.drop_last()) + if is_unreserved(c) {
            seq![c]
        } else {
            percent_bytes(encode_utf8(seq![c]))
        }
    }
}

/// The decimal digits of `n`, without leading zeros.
pub open spec fn decimal(n: nat) -> Seq<char>
    decreases n,
{
    if n < 10 {
        seq![DECIMAL_DIGITS@[n as int]]
    } else {
        decimal(n / 10) + seq![DECIMAL_DIGITS@[(n % 10) as int]]
    }
}

/// The search URL for `topic` and `page`.
pub open spec fn search_url(topic: Seq<char>, page: nat) -> Seq<char> {
    WALLHAVEN_SEARCH_API@ + "/"@ + WALLHAVEN_SEARCH_PARAM@ + percent_encoded(topic) + "&"@
        + WALLHAVEN_SEARCH_PAGE@ + "="@ + decimal(page)
}

/// The lookup URL of the image `id`.
pub open spec fn direct_url(id: Seq<char>) -> Seq<char> {
    WALLHAVEN_DIRECT_ID@ + "/"@ + percent_encoded(id)
}

/// The one-character string of the digit `n` of `digits`.
fn digit_of(digits: &'static str, n: usize) -> (r: &'static str)
    requires
        n < digits@.len() <= 16,
    ensures
        r@ == seq![digits@[n as int]],
{
    let r = digits.substring_char(n, n + 1);
    assert(r@ =~= seq![digits@[n as int]]);
    r
}

/// `%XX` for each of `bytes`.
pub fn percent_encode_bytes(bytes: &[u8]) -> (r: String)
    ensures
        r@ == percent_bytes(bytes@),
{
    proof {
        reveal_strlit("0123456789ABCDEF");
    }
    let mut out = String::new();
    let mut i: usize = 0;
    while i < bytes.len()
        invariant
            i <= bytes@.len(),
            out@ == percent_bytes(bytes@.subrange(0, i as int)),
            HEX_DIGITS@.len() == 16,
        decreases bytes@.len() - i,
    {
        let b = bytes[i];
        let ghost prefix = bytes@.subrange(0, i + 1);
        assert(prefix.drop_last() =~= bytes@.subrange(0, i as int));
        assert(prefix.last() == b);
        let ghost before = out@;
        out.append("%");
        proof {
            reveal_strlit("%");
        }
        assert("%"@ =~= seq!['%']);
        out.append(digit_of(HEX_DIGITS, (b / 16) as usize));
        out.append(digit_of(HEX_DIGITS, (b % 16) as usize));
        assert(out@ =~= before + seq![
            '%',
            HEX_DIGITS@[(b / 16) as int],
            HEX_DIGITS@[(b % 16) as int],
        ]);
        i = i + 1;
    }
    assert(bytes@.subrange(0, bytes@.len() as int) =~= bytes@);
    out
}

/// `s` percent-encoded for a URL query: letters, digits and `-._~` stay,
/// every other character becomes the `%XX` of each byte of its UTF-8
/// encoding.
pub fn percent_encode(s: &str) -> (r: String)
    ensures
        r@ == percent_encoded(s@),
{
    let n = s.unicode_len();
    let mut out = String::new();
    let mut i: usize = 0;
    while i < n
        invariant
            n == s@.len(),
            i <= n,
            out@ == percent_encoded(s@.subrange(0, i as int)),
        decreases n - i,
    {
        let c = s.get_char(i);
        let one = s.substring_char(i, i + 1);
        assert(one@ =~= seq![c]);
        assert(s@.subrange(0, i + 1).drop_last() =~= s@.subrange(0, i as int));
        if ('A' <= c && c <= 'Z') || ('a' <= c && c <= 'z') || ('0' <= c && c <= '9') || c == '-'
            || c == '.' || c == '_' || c == '~' {
            out.append(one);
        } else {
            let encoded = percent_encode_bytes(one.as_bytes());
            out.append(encoded.as_str());
        }
        i = i + 1;
    }
    assert(s@.subrange(0, n as int) =~= s@);
    out
}

/// The decimal digits of `n`, without leading zeros.
pub fn decimal_text(n: u16) -> (r: String)
    ensures
        r@ == decimal(n as nat),
    decreases n,
{
    proof {
        reveal_strlit("0123456789");
    }
    if n < 10 {
        String::from_str(digit_of(DECIMAL_DIGITS, n as usize))
    } else {
        decimal_text(n / 10).concat(digit_of(DECIMAL_DIGITS, (n % 10) as usize))
    }
}

/// The search URL for `topic_value` and `current_page`. A missing or empty
/// topic, or page 0, is `InvalidInput`.
pub fn create_seach_query_object(topic_value: Option<String>, current_page: u16) -> (r: Result<
    String,
    SearchError,
>)
    ensures
        match topic_value {
            Some(t) if t@.len() > 0 && current_page > 0 => r matches Ok(u) && u@ == search_url(
                t@,
                current_page as nat,
            ),
            _ => r == Err::<String, SearchError>(SearchError::InvalidInput),
        },
{
    let topic = match topic_value {
        Some(t) => t,
        None => return Err(SearchError::InvalidInput),
    };
    if topic.as_str().is_empty() || current_page == 0 {
        return Err(SearchError::InvalidInput);
    }
    let url = String::from_str(WALLHAVEN_SEARCH_API).concat("/").concat(WALLHAVEN_SEARCH_PARAM);
    let url = url.concat(percent_encode(topic.as_str()).as_str());
    let url = url.concat("&").concat(WALLHAVEN_SEARCH_PAGE).concat("=");
    let url = url.concat(decimal_text(current_page).as_str());
    Ok(url)
}

/// The lookup URL of the image `id`. A missing or empty identifier is
/// `InvalidInput`.
pub fn direct_image_url(id: Option<String>) -> (r: Result<String, SearchError>)
    ensures
        match id {
            Some(i) if i@.len() > 0 => r matches Ok(u) && u@ == direct_url(i@),
            _ => r == Err::<String, SearchError>(SearchError::InvalidInput),
        },
{
    let id = match id {
        Some(i) => i,
        None => return Err(SearchError::InvalidInput),
    };
    if id.as_str().is_empty() {
        return Err(SearchError::InvalidInput);
    }
    let url = String::from_str(WALLHAVEN_DIRECT_ID).concat("/");
    Ok(url.concat(percent_encode(id.as_str()).as_str()))
}

} // verus!
