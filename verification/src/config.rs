//! Target formats and the run configuration.

use vstd::prelude::*;
use vstd::string::StrSliceExecFns;

verus! {

/// How a lossy target's bitrate is interpreted: constant or variable.
#[derive(Clone, Copy, Debug, PartialEq, Eq, Structural)]
pub enum BitrateType {
    Cbr,
    Vbr,
}

/// Target of one conversion: a re-encode to the given codec with its
/// parameters, a raw byte copy, or an audio stream copy without re-encoding.
#[derive(Clone, Copy, Debug, PartialEq, Eq, Structural)]
pub enum Transcode {
    Opus { bitrate: u16, bitrate_type: BitrateType },
    Flac { compression: u8 },
    Mp3 { bitrate: u16, bitrate_type: BitrateType },
    Copy,
    CopyAudio,
}

/// The extension a target format fixes for its outputs, as characters.
/// Empty for the two copying targets, which keep the source's extension.
pub open spec fn spec_extension(t: Transcode) -> Seq<char> {
    match t {
        Transcode::Opus { .. } => "opus"@,
        Transcode::Flac { .. } => "flac"@,
        Transcode::Mp3 { .. } => "mp3"@,
        Transcode::Copy => ""@,
        Transcode::CopyAudio => ""@,
    }
}

/// The same extension as bytes, for splicing into byte-string paths.
pub open spec fn spec_extension_bytes(t: Transcode) -> Seq<u8> {
    match t {
        Transcode::Opus { .. } => seq!['o' as u8, 'p' as u8, 'u' as u8, 's' as u8],
        Transcode::Flac { .. } => seq!['f' as u8, 'l' as u8, 'a' as u8, 'c' as u8],
        Transcode::Mp3 { .. } => seq!['m' as u8, 'p' as u8, '3' as u8],
        Transcode::Copy => Seq::empty(),
        Transcode::CopyAudio => Seq::empty(),
    }
}

impl Transcode {
    /// The output file extension this target fixes; empty for `Copy` and
    /// `CopyAudio`.
    pub fn extension(&self) -> (r: &'static str)
        ensures
            r@ == spec_extension(*self),
    {
        match self {
            Transcode::Opus { .. } => "opus",
            Transcode::Flac { .. } => "flac",
            Transcode::Mp3 { .. } => "mp3",
            Transcode::Copy => "",
            Transcode::CopyAudio => "",
        }
    }

    /// The output file extension as bytes.
    pub fn extension_bytes(&self) -> (r: Vec<u8>)
        ensures
            r@ == spec_extension_bytes(*self),
    {
        let mut v: Vec<u8> = Vec::new();
        match self {
            Transcode::Opus { .. } => {
                v.push('o' as u8);
                v.push('p' as u8);
                v.push('u' as u8);
                v.push('s' as u8);
            },
            Transcode::Flac { .. } => {
                v.push('f' as u8);
                v.push('l' as u8);
                v.push('a' as u8);
                v.push('c' as u8);
            },
            Transcode::Mp3 { .. } => {
                v.push('m' as u8);
                v.push('p' as u8);
                v.push('3' as u8);
            },
            Transcode::Copy => {},
            Transcode::CopyAudio => {},
        }
        assert(v@ =~= spec_extension_bytes(*self));
        v
    }
}

/// Bitrate in kbit/s used for an Opus target when the rule gives none.
pub fn default_opus_bitrate() -> (r: u16)
    ensures
        r == 160,
{
    160
}

/// Compression level used for a Flac target when the rule gives none.
pub fn default_flac_compression() -> (r: u8)
    ensures
        r == 5,
{
    5
}

/// Bitrate interpretation used when the rule gives none.
pub fn bitrate_type_vbr() -> (r: BitrateType)
    ensures
        r == BitrateType::Vbr,
{
    BitrateType::Vbr
}

/// Bitrate in kbit/s used for an Mp3 target when the rule gives none.
pub fn default_mp3_bitrate() -> (r: u16)
    ensures
        r == 256,
{
    256
}

/// Whether `c` is a decimal digit.
pub open spec fn is_digit(c: char) -> bool {
    ('0' as u32) <= (c as u32) <= ('9' as u32)
}

/// The value of a decimal digit.
pub open spec fn digit_val(c: char) -> int
    recommends
        is_digit(c),
{
    c as u32 - '0' as u32
}

/// Whether every character of `s` is a decimal digit.
pub open spec fn all_digits(s: Seq<char>) -> bool {
    forall|i: int| 0 <= i < s.len() ==> is_digit(#[trigger] s[i])
}

/// The number a string of decimal digits denotes.
pub open spec fn digits_val(s: Seq<char>) -> int
    recommends
        all_digits(s),
    decreases s.len(),
{
    if s.len() == 0 {
        0
    } else {
        digits_val(s.drop_last()) * 10 + digit_val(s.last())
    }
}

/// What parsing a `jobs` argument yields: the denoted number, for an optional
/// plus sign followed by at least one decimal digit, where the number fits
/// the machine; nothing for any other string.
pub open spec fn spec_parse_usize(s: Seq<char>) -> Option<usize> {
    let body = if s.len() > 0 && s[0] == '+' {
        s.drop_first()
    } else {
        s
    };
    if body.len() == 0 || !all_digits(body) {
        None
    } else if digits_val(body) > usize::MAX as int {
        None
    } else {
        Some(digits_val(body) as usize)
    }
}

/// A digit string's value never shrinks as it grows.
proof fn lemma_digits_prefix_le(s: Seq<char>, k: int)
    requires
        all_digits(s),
        0 <= k <= s.len(),
    ensures
        0 <= digits_val(s.take(k)) <= digits_val(s),
    decreases s.len() - k,
{
    if k == s.len() {
        assert(s.take(k) =~= s);
        lemma_digits_nonneg(s);
    } else {
        lemma_digits_prefix_le(s, k + 1);
        assert(s.take(k + 1).drop_last() =~= s.take(k));
        assert(s.take(k + 1).last() == s[k]);
        lemma_digits_nonneg(s.take(k));
    }
}

/// A digit string's value is never negative.
proof fn lemma_digits_nonneg(s: Seq<char>)
    requires
        all_digits(s),
    ensures
        digits_val(s) >= 0,
    decreases s.len(),
{
    if s.len() > 0 {
        assert(all_digits(s.drop_last()));
        lemma_digits_nonneg(s.drop_last());
    }
}

/// Parses a `jobs` argument: an optional plus sign and decimal digits, as
/// [`spec_parse_usize`] says. Any other string, and any number too large for
/// the machine, yields nothing.
pub fn parse_jobs(s: &str) -> (r: Option<usize>)
    ensures
        r == spec_parse_usize(s@),
{
    let n = s.unicode_len();
    if n == 0 {
        return None;
    }
    let first = s.get_char(0);
    let start: usize = if first == '+' {
        1
    } else {
        0
    };
    let ghost body = if s@[0] == '+' {
        s@.drop_first()
    } else {
        s@
    };
    proof {
        assert(body =~= s@.subrange(start as int, n as int));
    }
    if n == start {
        return None;
    }
    let mut val: usize = 0;
    let mut i: usize = start;
    while i < n
        invariant
            start <= i <= n == s@.len(),
            start == 0 || start == 1,
            body == s@.subrange(start as int, n as int),
            body == (if s@.len() > 0 && s@[0] == '+' {
                s@.drop_first()
            } else {
                s@
            }),
            all_digits(body.take(i - start)),
            val == digits_val(body.take(i - start)),
        decreases n - i,
    {
        let c = s.get_char(i);
        let cv = c as u32;
        if cv < '0' as u32 || cv > '9' as u32 {
            proof {
                assert(body[i - start] == s@[i as int]);
                assert(!is_digit(body[i - start]));
                assert(!all_digits(body));
                assert(spec_parse_usize(s@) is None);
            }
            return None;
        }
        let d = (cv - '0' as u32) as usize;
        proof {
            assert(body[i - start] == s@[i as int]);
            assert(is_digit(body[i - start]));
            assert(digit_val(body[i - start]) == d);
        }
        if val > (usize::MAX - d) / 10 {
            proof {
                if all_digits(body) {
                    assert(body.take(i - start + 1).drop_last() =~= body.take(i - start));
                    assert(body.take(i - start + 1).last() == body[i - start]);
                    assert(digits_val(body.take(i - start + 1)) == val * 10 + d);
                    assert(val * 10 + d > usize::MAX as int) by {
                        assert(val >= (usize::MAX - d) / 10 + 1);
                        assert(((usize::MAX - d) / 10 + 1) * 10 == ((usize::MAX - d) / 10) * 10
                            + 10);
                        assert(((usize::MAX - d) / 10) * 10 + ((usize::MAX as int - d) % 10)
                            == usize::MAX - d);
                    };
                    lemma_digits_prefix_le(body, i - start + 1);
                    assert(digits_val(body) > usize::MAX as int);
                }
                assert(spec_parse_usize(s@) is None);
            }
            return None;
        }
        proof {
            assert(body.take(i - start + 1).drop_last() =~= body.take(i - start));
            assert(body.take(i - start + 1).last() == body[i - start]);
            assert(val <= (usize::MAX - d) / 10);
            assert(((usize::MAX - d) / 10) * 10 + ((usize::MAX as int - d) % 10) == usize::MAX
                - d);
        }
        val = val * 10 + d;
        i += 1;
    }
    proof {
        assert(body.take(n - start) =~= body);
    }
    Some(val)
}

impl Default for Transcode {
    /// The built-in target: Opus at the default bitrate, variable bitrate.
    fn default() -> (r: Self)
        ensures
            r == (Transcode::Opus { bitrate: 160, bitrate_type: BitrateType::Vbr }),
    {
        Transcode::Opus { bitrate: default_opus_bitrate(), bitrate_type: bitrate_type_vbr() }
    }
}

} // verus!
