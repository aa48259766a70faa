//! The configuration of a companion layout and the name of the file that
//! holds each of its slices.
//!
//! The number in a file name counts the slices from one. It is written in
//! decimal and padded with zeros on the left to two digits where the layout
//! has up to 99 slices, to three where it has up to 999. It takes the place
//! of every `{z}` in the template; the rest of the template is kept.

use vstd::prelude::*;
use vstd::string::*;
use crate::error::CompanionError;

verus! {

/// What a companion layout is made with.
///
/// `physical_size_z` is the bit pattern of an IEEE 754 binary64 number: the
/// library passes it on exactly and never computes with it.
#[derive(Clone, Debug)]
pub struct StackConfig {
    pub size_z: usize,
    pub physical_size_z: u64,
    pub physical_size_z_unit: String,
    pub filename_template: String,
}

/// The mathematical value of a [`StackConfig`].
pub struct StackConfigView {
    pub size_z: nat,
    pub physical_size_z: u64,
    pub physical_size_z_unit: Seq<char>,
    pub filename_template: Seq<char>,
}

impl View for StackConfig {
    type V = StackConfigView;

    open spec fn view(&self) -> StackConfigView {
        StackConfigView {
            size_z: self.size_z as nat,
            physical_size_z: self.physical_size_z,
            physical_size_z_unit: self.physical_size_z_unit@,
            filename_template: self.filename_template@,
        }
    }
}

/// The ten decimal digits in ascending order.
pub open spec fn digit_chars() -> Seq<char> {
    seq!['0', '1', '2', '3', '4', '5', '6', '7', '8', '9']
}

/// A number in decimal, without leading zeros.
pub open spec fn decimal(n: nat) -> Seq<char>
    decreases n,
{
    if n < 10 {
        seq![digit_chars()[n as int]]
    } else {
        decimal(n / 10).push(digit_chars()[(n % 10) as int])
    }
}

/// A number in decimal, with zeros on the left up to `width` digits. A number
/// that needs more digits keeps them all.
pub open spec fn zero_padded(n: nat, width: nat) -> Seq<char> {
    let digits = decimal(n);
    if digits.len() >= width {
        digits
    } else {
        Seq::new((width - digits.len()) as nat, |i: int| '0') + digits
    }
}

/// The depth counts for which file names are made.
pub open spec fn supported_depth_count(size_z: nat) -> bool {
    1 <= size_z <= 999
}

/// The number of digits that the layout's file numbers are padded to.
pub open spec fn token_width(size_z: nat) -> nat {
    if size_z <= 99 {
        2
    } else {
        3
    }
}

/// Tells whether `{z}` stands in the template at position `i`.
pub open spec fn placeholder_at(template: Seq<char>, i: int) -> bool {
    &&& 0 <= i
    &&& i + 3 <= template.len()
    &&& template[i] == '{'
    &&& template[i + 1] == 'z'
    &&& template[i + 2] == '}'
}

/// The template with the token in the place of every `{z}`, read from the
/// left.
pub open spec fn substitute(template: Seq<char>, token: Seq<char>) -> Seq<char>
    decreases template.len(),
{
    if template.len() == 0 {
        Seq::empty()
    } else if placeholder_at(template, 0) {
        token + substitute(template.skip(3), token)
    } else {
        seq![template[0]] + substitute(template.skip(1), token)
    }
}

/// The name of the file that holds the slice at depth `z`, counted from zero,
/// of a layout of `size_z` slices.
pub open spec fn slice_file_name(template: Seq<char>, size_z: nat, z: nat) -> Seq<char> {
    substitute(template, zero_padded(z + 1, token_width(size_z)))
}

/// In a layout with file names, the number of every slice is written with
/// exactly as many digits as the layout pads to.
pub proof fn lemma_file_number_width(size_z: nat, z: nat)
    requires
        supported_depth_count(size_z),
        z < size_z,
    ensures
        zero_padded(z + 1, token_width(size_z)).len() == token_width(size_z),
{
    reveal_with_fuel(decimal, 3);
}

/// Appends a number in decimal.
pub fn push_decimal(out: &mut String, n: u128)
    ensures
        final(out)@ == old(out)@ + decimal(n as nat),
    decreases n,
{
    if n >= 10 {
        push_decimal(out, n / 10);
    }
    let d: usize = (n % 10) as usize;
    proof {
        reveal_strlit("0123456789");
    }
    let digit = "0123456789".substring_char(d, d + 1);
    assert(digit@ =~= seq![digit_chars()[d as int]]);
    out.append(digit);
    assert(final(out)@ =~= old(out)@ + decimal(n as nat));
}

/// Counts the digits of a number in decimal.
pub fn decimal_len(n: u128) -> (len: u128)
    ensures
        len == decimal(n as nat).len(),
        1 <= len,
        n >= 1 ==> len <= n,
    decreases n,
{
    if n >= 10 {
        let shorter: u128 = decimal_len(n / 10);
        shorter + 1
    } else {
        1
    }
}

/// Appends a number in decimal, padded with zeros on the left to `width`
/// digits.
pub fn push_zero_padded(out: &mut String, n: u128, width: u128)
    ensures
        final(out)@ == old(out)@ + zero_padded(n as nat, width as nat),
{
    let len: u128 = decimal_len(n);
    let ghost before = out@;
    if len < width {
        let count: u128 = width - len;
        let mut k: u128 = 0;
        while k < count
            invariant
                k <= count,
                out@ == before + Seq::new(k as nat, |i: int| '0'),
            decreases count - k,
        {
            out.append("0");
            proof {
                reveal_strlit("0");
                assert(out@ =~= before + Seq::new((k + 1) as nat, |i: int| '0'));
            }
            k = k + 1;
        }
    } else {
        assert(out@ =~= before + Seq::new(0, |i: int| '0'));
    }
    push_decimal(out, n);
    assert(out@ =~= before + zero_padded(n as nat, width as nat));
}

/// Builds the template's text with the token in the place of every `{z}`.
pub fn substitute_token(template: &str, token: &str) -> (out: String)
    ensures
        out@ == substitute(template@, token@),
{
    let len: usize = template.unicode_len();
    let mut out = String::new();
    let mut i: usize = 0;
    assert(template@.skip(0) =~= template@);
    assert(out@ + substitute(template@, token@) =~= substitute(template@, token@));
    while i < len
        invariant
            i <= len,
            len == template@.len(),
            out@ + substitute(template@.skip(i as int), token@) == substitute(
                template@,
                token@,
            ),
        decreases len - i,
    {
        let ghost rest = template@.skip(i as int);
        let ghost done = out@;
        if len - i >= 3 && template.get_char(i) == '{' && template.get_char(i + 1) == 'z'
            && template.get_char(i + 2) == '}' {
            out.append(token);
            proof {
                assert(placeholder_at(rest, 0));
                assert(rest.skip(3) =~= template@.skip(i + 3));
                assert(out@ + substitute(rest.skip(3), token@) =~= done + substitute(
                    rest,
                    token@,
                ));
            }
            i = i + 3;
        } else {
            let kept = template.substring_char(i, i + 1);
            out.append(kept);
            proof {
                assert(!placeholder_at(rest, 0));
                assert(kept@ =~= seq![rest[0]]);
                assert(rest.skip(1) =~= template@.skip(i + 1));
                assert(out@ + substitute(rest.skip(1), token@) =~= done + substitute(
                    rest,
                    token@,
                ));
            }
            i = i + 1;
        }
    }
    assert(out@ + Seq::<char>::empty() =~= out@);
    out
}

impl StackConfig {
    /// The name of the file that holds the slice at depth `z`, counted from
    /// zero. The number in the name is `z + 1`.
    ///
    /// A layout of no slices, or of a thousand or more, has no file names.
    pub fn filename(&self, z: usize) -> (name: Result<String, CompanionError>)
        ensures
            supported_depth_count(self@.size_z) ==> name.is_ok() && name.unwrap()@
                == slice_file_name(self@.filename_template, self@.size_z, z as nat),
            !supported_depth_count(self@.size_z) ==> name == Err::<String, CompanionError>(
                CompanionError::UnsupportedDepthCount,
            ),
    {
        if self.size_z == 0 || self.size_z > 999 {
            return Err(CompanionError::UnsupportedDepthCount);
        }
        let width: u128 = if self.size_z <= 99 {
            2
        } else {
            3
        };
        let number: u128 = z as u128 + 1;
        let mut token = String::new();
        push_zero_padded(&mut token, number, width);
        assert(token@ =~= zero_padded((z + 1) as nat, token_width(self@.size_z)));
        Ok(substitute_token(self.filename_template.as_str(), token.as_str()))
    }
}

} // verus!
