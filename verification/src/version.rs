use vstd::prelude::*;
use vstd::string::*;
use crate::error::UklientError;
use crate::strutil::all_digits;
use crate::strutil::dec_chars;
use crate::strutil::digit_val;
use crate::strutil::digits_val;
use crate::strutil::is_digit;
use crate::strutil::lemma_all_digits_range;
use crate::strutil::lemma_dec_chars_digits;
use crate::strutil::lemma_dec_chars_len;
use crate::strutil::lemma_digits_val_bound;
use crate::strutil::lemma_ten_pow_mono;
use crate::strutil::lemma_ten_pow_values;
use crate::strutil::push_u32_decimal;
use crate::strutil::ten_pow;

verus! {

/// A version of the game within the 1.x line: "1.19.3" has minor 19 and
/// patch 3.
#[derive(Clone, Copy, Debug, PartialEq, Eq, Structural)]
pub struct MinecraftVersion {
    pub minor: u32,
    pub patch: u32,
}

impl MinecraftVersion {
    /// Ordering of versions within the 1.x line: by minor, then by patch.
    pub open spec fn spec_at_least(self, other: MinecraftVersion) -> bool {
        self.minor > other.minor || (self.minor == other.minor && self.patch >= other.patch)
    }

    pub fn at_least(self, other: MinecraftVersion) -> (r: bool)
        ensures
            r == self.spec_at_least(other),
    {
        self.minor > other.minor || (self.minor == other.minor && self.patch >= other.patch)
    }

    /// The canonical rendering of the version: "1.", the minor number in
    /// decimal, ".", the patch number in decimal.
    pub open spec fn version_chars(self) -> Seq<char> {
        "1."@ + dec_chars(self.minor as nat) + "."@ + dec_chars(self.patch as nat)
    }

    pub fn to_version_string(self) -> (r: String)
        ensures
            r@ == self.version_chars(),
    {
        let mut s = String::from_str("1.");
        push_u32_decimal(&mut s, self.minor);
        s.append(".");
        push_u32_decimal(&mut s, self.patch);
        proof {
            assert(s@ =~= self.version_chars());
        }
        s
    }
}

/// Whether `j` is the index of the dot between the minor and patch
/// components of a version string of the shape "1.M.P", where M and P are
/// runs of one to nine decimal digits.
pub open spec fn version_split_at(s: Seq<char>, j: int) -> bool {
    &&& 3 <= j
    &&& j + 1 < s.len()
    &&& s[0] == '1'
    &&& s[1] == '.'
    &&& s[j] == '.'
    &&& j - 2 <= 9
    &&& s.len() - (j + 1) <= 9
    &&& all_digits(s.subrange(2, j))
    &&& all_digits(s.subrange(j + 1, s.len() as int))
}

/// Whether the character sequence is a well-formed version string.
pub open spec fn is_version_chars(s: Seq<char>) -> bool {
    exists|j: int| version_split_at(s, j)
}

/// The index of the dot between minor and patch; meaningful only when the
/// sequence is a well-formed version string, in which case it is unique.
pub open spec fn split_index(s: Seq<char>) -> int {
    choose|j: int| version_split_at(s, j)
}

/// The version a well-formed version string denotes.
pub open spec fn spec_version_of(s: Seq<char>) -> MinecraftVersion {
    let j = split_index(s);
    MinecraftVersion {
        minor: digits_val(s.subrange(2, j)) as u32,
        patch: digits_val(s.subrange(j + 1, s.len() as int)) as u32,
    }
}

/// The split index of a well-formed version string is unique.
pub proof fn lemma_split_unique(s: Seq<char>, j1: int, j2: int)
    requires
        version_split_at(s, j1),
        version_split_at(s, j2),
    ensures
        j1 == j2,
{
    if j1 < j2 {
        assert(is_digit(s.subrange(2, j2)[j1 - 2]));
        assert(s.subrange(2, j2)[j1 - 2] == s[j1]);
        assert(!is_digit('.'));
    }
    if j2 < j1 {
        assert(is_digit(s.subrange(2, j1)[j2 - 2]));
        assert(s.subrange(2, j1)[j2 - 2] == s[j2]);
        assert(!is_digit('.'));
    }
}

fn is_digit_at(s: &str, i: usize) -> (r: bool)
    requires
        i < s@.len(),
    ensures
        r == is_digit(s@[i as int]),
{
    let u = s.get_char(i) as u32;
    48 <= u && u <= 57
}

fn version_error() -> (r: UklientError)
    ensures
        r matches UklientError::VersionError(_),
{
    UklientError::VersionError(String::from_str("malformed game version"))
}

/// Parses a version string of the shape "1.M.P" (each of M and P a run of
/// one to nine decimal digits). Returns the version exactly when the
/// string is well-formed, and the version-parse error kind otherwise.
pub fn parse_version(s: &str) -> (r: Result<MinecraftVersion, UklientError>)
    ensures
        r matches Ok(v) ==> is_version_chars(s@) && v == spec_version_of(s@),
        r matches Err(e) ==> !is_version_chars(s@) && e matches UklientError::VersionError(_),
{
    let len = s.unicode_len();
    if len < 5 {
        proof {
            assert forall|j: int| !version_split_at(s@, j) by {}
        }
        return Err(version_error());
    }
    if s.get_char(0) != '1' {
        return Err(version_error());
    }
    if s.get_char(1) != '.' {
        return Err(version_error());
    }
    proof {
        lemma_ten_pow_values();
    }
    // scan the minor component
    let mut i: usize = 2;
    let mut minor: u32 = 0;
    while i < len && i - 2 < 9 && is_digit_at(s, i)
        invariant
            len == s@.len(),
            5 <= len,
            2 <= i <= len,
            i - 2 <= 9,
            forall|k: int| 2 <= k < i ==> is_digit(s@[k]),
            minor == digits_val(s@.subrange(2, i as int)),
            ten_pow(8) == 100000000,
            ten_pow(9) == 1000000000,
        decreases len - i,
    {
        let c = s.get_char(i);
        proof {
            lemma_all_digits_range(s@, 2, i as int);
            lemma_digits_val_bound(s@.subrange(2, i as int));
            lemma_ten_pow_mono((i - 2) as nat, 8);
            assert(minor < 100000000);
            assert(s@.subrange(2, i as int + 1).drop_last() =~= s@.subrange(2, i as int));
            assert(s@.subrange(2, i as int + 1).last() == s@[i as int]);
        }
        let d = (c as u32) - 48;
        minor = minor * 10 + d;
        i += 1;
    }
    // the minor run must end at a dot, after one to nine digits
    if i >= len {
        // digits all the way to the end: no position is left for the dot
        proof {
            assert forall|j: int| !version_split_at(s@, j) by {
                if version_split_at(s@, j) {
                    assert(is_digit(s@[j]));
                    assert(!is_digit('.'));
                }
            }
        }
        return Err(version_error());
    }
    let c = s.get_char(i);
    if c != '.' || i == 2 {
        // a stray character, a too-long minor run, or an empty minor
        proof {
            assert forall|j: int| !version_split_at(s@, j) by {
                if version_split_at(s@, j) {
                    if j < i {
                        assert(is_digit(s@[j]));
                        assert(!is_digit('.'));
                    } else if j > i {
                        // position i lies inside the split's minor run
                        assert(s@.subrange(2, j)[i - 2] == s@[i as int]);
                        assert(is_digit(s@[i as int]));
                        assert(i - 2 < 9);
                    }
                }
            }
        }
        return Err(version_error());
    }
    let j = i;
    // scan the patch component
    i = j + 1;
    let mut patch: u32 = 0;
    while i < len && i - (j + 1) < 9 && is_digit_at(s, i)
        invariant
            len == s@.len(),
            5 <= len,
            2 < j < len,
            j + 1 <= i <= len,
            i - (j + 1) <= 9,
            forall|k: int| j + 1 <= k < i ==> is_digit(s@[k]),
            patch == digits_val(s@.subrange(j as int + 1, i as int)),
            ten_pow(8) == 100000000,
            ten_pow(9) == 1000000000,
        decreases len - i,
    {
        let c2 = s.get_char(i);
        proof {
            lemma_all_digits_range(s@, j as int + 1, i as int);
            lemma_digits_val_bound(s@.subrange(j as int + 1, i as int));
            lemma_ten_pow_mono((i - (j + 1)) as nat, 8);
            assert(patch < 100000000);
            assert(s@.subrange(j as int + 1, i as int + 1).drop_last() =~= s@.subrange(
                j as int + 1,
                i as int,
            ));
            assert(s@.subrange(j as int + 1, i as int + 1).last() == s@[i as int]);
        }
        let d = (c2 as u32) - 48;
        patch = patch * 10 + d;
        i += 1;
    }
    if i < len || i == j + 1 {
        // a stray character, a too-long patch run, or an empty patch
        proof {
            let si = i as int;
            let sj = j as int;
            assert forall|j2: int| !version_split_at(s@, j2) by {
                if version_split_at(s@, j2) {
                    if j2 < sj {
                        assert(is_digit(s@[j2]));
                        assert(!is_digit('.'));
                    } else if j2 > sj {
                        assert(s@.subrange(2, j2)[sj - 2] == s@[sj]);
                        assert(is_digit(s@[sj]));
                        assert(!is_digit('.'));
                    } else {
                        // the split's patch run covers j + 1 .. len
                        if si < len {
                            if is_digit(s@[si]) {
                                // the run scanned nine digits and a tenth follows
                                assert(si - (sj + 1) == 9);
                                assert(s@.len() - (j2 + 1) > 9);
                            } else {
                                assert(s@.subrange(sj + 1, len as int)[si - (sj + 1)]
                                    == s@[si]);
                                assert(is_digit(s@[si]));
                            }
                        } else {
                            // the patch run is empty
                            assert(si == sj + 1);
                            assert(j2 + 1 < s@.len());
                            assert(si < len);
                        }
                    }
                }
            }
        }
        return Err(version_error());
    }
    let v = MinecraftVersion { minor, patch };
    proof {
        lemma_all_digits_range(s@, 2, j as int);
        lemma_all_digits_range(s@, j as int + 1, len as int);
        assert(version_split_at(s@, j as int));
        assert(is_version_chars(s@));
        let jc = split_index(s@);
        assert(version_split_at(s@, jc));
        lemma_split_unique(s@, jc, j as int);
        lemma_digits_val_bound(s@.subrange(2, j as int));
        lemma_ten_pow_mono((j - 2) as nat, 9);
        lemma_digits_val_bound(s@.subrange(j as int + 1, len as int));
        lemma_ten_pow_mono((len - (j + 1)) as nat, 9);
        assert(v == spec_version_of(s@));
    }
    Ok(v)
}

/// Law: rendering a version and parsing it back is the identity, for every
/// version whose components fit the parser's nine-digit runs.
pub proof fn lemma_version_round_trip(v: MinecraftVersion)
    requires
        v.minor <= 999999999,
        v.patch <= 999999999,
    ensures
        is_version_chars(v.version_chars()),
        spec_version_of(v.version_chars()) == v,
{
    let s = v.version_chars();
    let m = dec_chars(v.minor as nat);
    let p = dec_chars(v.patch as nat);
    reveal_strlit("1.");
    reveal_strlit(".");
    lemma_dec_chars_digits(v.minor as nat);
    lemma_dec_chars_digits(v.patch as nat);
    lemma_ten_pow_values();
    lemma_dec_chars_len(v.minor as nat, 9);
    lemma_dec_chars_len(v.patch as nat, 9);
    let j = 2 + m.len() as int;
    assert(s.len() == 2 + m.len() + 1 + p.len());
    assert(s[0] == '1');
    assert(s[1] == '.');
    assert(s[j] == '.');
    assert(s.subrange(2, j) =~= m);
    assert(s.subrange(j + 1, s.len() as int) =~= p);
    assert(version_split_at(s, j));
    assert(is_version_chars(s));
    let jc = split_index(s);
    assert(version_split_at(s, jc));
    lemma_split_unique(s, jc, j);
    assert(spec_version_of(s) == v);
}

/// The major Java version the game needs: 17 from game version 1.17 on,
/// 8 before it.
pub fn java_major(v: MinecraftVersion) -> (r: u8)
    ensures
        r == (if v.minor >= 17 {
            17u8
        } else {
            8u8
        }),
{
    let threshold = MinecraftVersion { minor: 17, patch: 0 };
    if v.at_least(threshold) {
        17
    } else {
        8
    }
}

} // verus!
