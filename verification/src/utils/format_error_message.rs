//! Compact production error messages with a link to the full description.

use vstd::prelude::*;

use vstd::string::StringSliceAdditionalSpecFns;

use crate::utils::text::{decimal, push_char, push_decimal};

verus! {

/// Whether a byte is an unreserved URL character, kept as is by percent
/// encoding: ASCII letters, digits, `-`, `_`, `.` and `~`.
pub open spec fn unreserved(b: u8) -> bool {
    (65 <= b <= 90) || (97 <= b <= 122) || (48 <= b <= 57) || b == 45 || b == 95 || b == 46 || b
        == 126
}

/// The uppercase hexadecimal digit of `d` (`0 <= d < 16`).
pub open spec fn hex_digit(d: u8) -> char {
    if d < 10 {
        (48 + d) as char
    } else {
        (55 + d) as char
    }
}

/// The encoding of one byte: itself when unreserved, else `%` and its two
/// uppercase hexadecimal digits.
pub open spec fn encode_byte(b: u8) -> Seq<char> {
    if unreserved(b) {
        seq![b as char]
    } else {
        seq!['%', hex_digit(b / 16), hex_digit(b % 16)]
    }
}

/// The percent encoding of a byte string, byte by byte.
pub open spec fn percent_encoded(bytes: Seq<u8>) -> Seq<char>
    decreases bytes.len(),
{
    if bytes.len() == 0 {
        Seq::empty()
    } else {
        percent_encoded(bytes.drop_last()) + encode_byte(bytes.last())
    }
}

/// The query arguments of the error link: for each argument, in order,
/// `&args[]=` followed by its percent-encoded UTF-8 bytes.
pub open spec fn args_query(args: Seq<&str>) -> Seq<char>
    decreases args.len(),
{
    if args.len() == 0 {
        Seq::empty()
    } else {
        args_query(args.drop_last()) + "&args[]="@ + percent_encoded(args.last().spec_bytes())
    }
}

/// The full error message for `code` and `args`.
pub open spec fn error_message(code: nat, args: Seq<&str>) -> Seq<char> {
    "Base UI error #"@ + decimal(code) + "; visit "@ + "https://base-ui.com/production-error?code="@
        + decimal(code) + args_query(args) + " for the full message."@
}

/// Whether a character may stand in a URL query value as it is: an
/// unreserved character or the `%` that starts an escape.
pub open spec fn query_safe(c: char) -> bool {
    let n = c as u32;
    (65 <= n <= 90) || (97 <= n <= 122) || (48 <= n <= 57) || n == 45 || n == 95 || n == 46 || n
        == 126 || n == 37
}

/// Percent encoding keeps a string made only of unreserved bytes as it is.
pub proof fn lemma_percent_encode_keeps_unreserved(bytes: Seq<u8>)
    requires
        forall|i: int| 0 <= i < bytes.len() ==> unreserved(#[trigger] bytes[i]),
    ensures
        percent_encoded(bytes) == bytes.map_values(|b: u8| b as char),
    decreases bytes.len(),
{
    if bytes.len() > 0 {
        let prefix = bytes.drop_last();
        assert forall|i: int| 0 <= i < prefix.len() implies unreserved(#[trigger] prefix[i]) by {
            assert(prefix[i] == bytes[i]);
        }
        lemma_percent_encode_keeps_unreserved(prefix);
        assert(unreserved(bytes[bytes.len() - 1]));
        assert(percent_encoded(bytes) =~= bytes.map_values(|b: u8| b as char));
    } else {
        assert(percent_encoded(bytes) =~= bytes.map_values(|b: u8| b as char));
    }
}

/// Every character that percent encoding produces is safe in a URL query
/// value, whatever the input bytes.
pub proof fn lemma_percent_encoded_query_safe(bytes: Seq<u8>)
    ensures
        forall|i: int|
            0 <= i < percent_encoded(bytes).len() ==> query_safe(#[trigger] percent_encoded(bytes)[i]),
    decreases bytes.len(),
{
    if bytes.len() > 0 {
        let prefix = bytes.drop_last();
        let b = bytes.last();
        lemma_percent_encoded_query_safe(prefix);
        let head = percent_encoded(prefix);
        let tail = encode_byte(b);
        assert(forall|j: int| 0 <= j < tail.len() ==> query_safe(#[trigger] tail[j])) by {
            if unreserved(b) {
                assert(tail[0] == b as char);
                assert((b as char) as u32 == b);
            } else {
                let hi = b / 16;
                let lo = b % 16;
                assert(hi < 16 && lo < 16);
                assert(tail[0] == '%');
                assert(tail[1] == hex_digit(hi));
                assert(tail[2] == hex_digit(lo));
                assert(hi < 10 ==> (hex_digit(hi) as u32) == 48 + hi);
                assert(hi >= 10 ==> (hex_digit(hi) as u32) == 55 + hi);
                assert(lo < 10 ==> (hex_digit(lo) as u32) == 48 + lo);
                assert(lo >= 10 ==> (hex_digit(lo) as u32) == 55 + lo);
            }
        }
        assert forall|i: int| 0 <= i < percent_encoded(bytes).len() implies query_safe(
            #[trigger] percent_encoded(bytes)[i],
        ) by {
            assert(percent_encoded(bytes) == head + tail);
            if i < head.len() {
                assert(percent_encoded(bytes)[i] == head[i]);
            } else {
                assert(percent_encoded(bytes)[i] == tail[i - head.len()]);
            }
        }
    }
}

/// Adding an argument at the end of the list appends `&args[]=` followed by
/// its percent encoding to the query, whatever the arguments before it.
pub proof fn lemma_args_query_appends(args: Seq<&str>, arg: &str)
    ensures
        args_query(args.push(arg)) == args_query(args) + "&args[]="@ + percent_encoded(
            arg.spec_bytes(),
        ),
{
    assert(args.push(arg).drop_last() =~= args);
}

/// The query has one `&args[]=` segment for each argument, in argument
/// order: it is the query of the first `k` arguments followed by the
/// segments of the others, for every `k`.
pub proof fn lemma_args_query_prefix(args: Seq<&str>, k: int)
    requires
        0 <= k <= args.len(),
    ensures
        args_query(args) == args_query(args.take(k)) + args_query(args.skip(k)),
        args_query(args).len() >= 8 * (args.len() - k) + args_query(args.take(k)).len(),
    decreases args.len(),
{
    reveal_strlit("&args[]=");
    if args.len() == k {
        assert(args.take(k) =~= args);
        assert(args.skip(k) =~= Seq::<&str>::empty());
        assert(args_query(args.take(k)) + args_query(args.skip(k)) =~= args_query(args));
    } else {
        let init = args.drop_last();
        lemma_args_query_prefix(init, k);
        assert(init.take(k) =~= args.take(k));
        assert(args.skip(k).drop_last() =~= init.skip(k));
        assert(args.skip(k).last() == args.last());
        assert(args_query(args) =~= args_query(args.take(k)) + args_query(args.skip(k)));
    }
}

/// The character of a hexadecimal digit.
fn hex(d: u8) -> (c: char)
    requires
        d < 16,
    ensures
        c == hex_digit(d),
{
    if d < 10 {
        (48 + d) as char
    } else {
        (55 + d) as char
    }
}

/// Minimal percent-encoding for URL query parameter values: every byte of
/// the UTF-8 encoding that is not unreserved becomes `%XX`.
pub fn percent_encode(s: &str) -> (r: String)
    ensures
        r@ == percent_encoded(s.spec_bytes()),
{
    let bytes = s.as_bytes();
    let ghost bs = s.spec_bytes();
    let mut result = String::new();
    let mut i: usize = 0;
    while i < bytes.len()
        invariant
            bytes@ == bs,
            i <= bs.len(),
            result@ == percent_encoded(bs.take(i as int)),
        decreases bs.len() - i,
    {
        let byte = bytes[i];
        proof {
            assert(bs.take(i + 1).drop_last() =~= bs.take(i as int));
            assert(bs.take(i + 1).last() == byte);
        }
        if (65 <= byte && byte <= 90) || (97 <= byte && byte <= 122) || (48 <= byte && byte <= 57)
            || byte == 45 || byte == 95 || byte == 46 || byte == 126 {
            push_char(&mut result, byte as char);
            assert(result@ =~= percent_encoded(bs.take(i + 1)));
        } else {
            push_char(&mut result, '%');
            push_char(&mut result, hex(byte / 16));
            push_char(&mut result, hex(byte % 16));
            assert(result@ =~= percent_encoded(bs.take(i + 1)));
        }
        i = i + 1;
    }
    assert(bs.take(bs.len() as int) =~= bs);
    result
}

/// Format a production error message with a code and arguments.
///
/// Returns a string like:
/// `"Base UI error #1; visit https://base-ui.com/production-error?code=1&args[]=foo for the full message."`
pub fn format_error_message(code: u32, args: &[&str]) -> (r: String)
    ensures
        r@ == error_message(code as nat, args@),
{
    let mut url = String::from_str("https://base-ui.com/production-error?code=");
    push_decimal(&mut url, code as u64);
    let ghost head = url@;
    let mut i: usize = 0;
    while i < args.len()
        invariant
            i <= args@.len(),
            url@ == head + args_query(args@.take(i as int)),
        decreases args@.len() - i,
    {
        url.append("&args[]=");
        let encoded = percent_encode(args[i]);
        url.append(encoded.as_str());
        proof {
            assert(args@.take(i + 1).drop_last() =~= args@.take(i as int));
            assert(args@.take(i + 1).last() == args@[i as int]);
        }
        i = i + 1;
    }
    assert(args@.take(args@.len() as int) =~= args@);
    let mut message = String::from_str("Base UI error #");
    push_decimal(&mut message, code as u64);
    message.append("; visit ");
    message.append(url.as_str());
    message.append(" for the full message.");
    message
}

} // verus!
