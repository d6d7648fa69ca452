//! Seeds and their text form: up to thirteen digits of base 35, written
//! with the ten decimal digits and the letters but `O`.

use vstd::prelude::*;
use vstd::string::StringSliceAdditionalSpecFns;
use crate::map::Act;
use crate::rng::{xs128_seeded, Rng};
use crate::text::push_char;

verus! {

/// Number of letters in the alphabet of seed strings.
pub const LETTERS: usize = 35;

/// The base of seed strings.
pub const BASE: u64 = 35;

/// Number of characters of a seed string.
pub const LENGTH: usize = 13;

/// The blank that pads a seed string on the left.
pub const BLANK: u8 = 32;

/// A seed: the signed 64-bit integer from which a run is generated.
#[derive(Debug, PartialEq, Eq, Clone, Copy, Structural)]
pub struct Seed {
    pub seed: i64,
}

/// A seed in text form: thirteen characters, right-aligned.
#[derive(Debug, PartialEq, Eq, Clone, Copy)]
pub struct SeedString {
    pub seed: [u8; 13],
}

/// Why a text is no seed string.
#[derive(Debug, PartialEq, Eq, Clone, Copy, Structural)]
pub enum Error {
    /// The text holds a character that is neither a blank, a decimal digit
    /// nor a capital letter.
    InvalidCharacter(u8),
    /// The text is longer than thirteen characters; the length is given.
    InvalidLength(usize),
}

/// The letter of a digit of base 35: the decimal digits, then the capital
/// letters without `O`.
pub open spec fn letter_at(index: int) -> u8 {
    if index < 10 {
        (48 + index) as u8
    } else if index < 24 {
        (65 + index - 10) as u8
    } else {
        (65 + index - 9) as u8
    }
}

/// The digit of base 35 for which a byte stands: the decimal digits stand
/// for 0 to 9, the letters `A` to `N` for 10 to 23 and the letters `P` to
/// `Z` for 24 to 34; `O` is read as the digit 0. A byte that is none of
/// these has the value that the same arithmetic gives it.
pub open spec fn letter_value(letter: u8) -> u8 {
    if letter == 79 {
        0
    } else if letter < 65 {
        (if letter >= 48 {
            letter - 48
        } else {
            letter + 256 - 48
        }) as u8
    } else if letter < 79 {
        (letter - 65 + 10) as u8
    } else {
        (letter - 65 + 9) as u8
    }
}

/// `value` divided by 35, `times` times.
pub open spec fn shifted(value: int, times: int) -> int
    decreases times,
{
    if times <= 0 {
        value
    } else {
        shifted(value, times - 1) / 35
    }
}

/// The text form of the unsigned value `value`: its thirteen digits of base
/// 35, most significant first, with blanks for the leading zeros.
pub open spec fn encoded(value: int) -> Seq<u8> {
    Seq::new(
        13,
        |i: int|
            if shifted(value, 12 - i) == 0 {
                BLANK
            } else {
                letter_at(shifted(value, 12 - i) % 35)
            },
    )
}

/// Whether the first `upto` bytes are all blanks.
pub open spec fn blank_until(bytes: Seq<u8>, upto: int) -> bool
    decreases upto,
{
    if upto <= 0 {
        true
    } else {
        blank_until(bytes, upto - 1) && bytes[upto - 1] == BLANK
    }
}

/// The unsigned value of the first `upto` bytes: after the leading blanks,
/// every byte is one more digit of base 35, in wrapping 64-bit arithmetic.
pub open spec fn decoded_until(bytes: Seq<u8>, upto: int) -> int
    decreases upto,
{
    if upto <= 0 {
        0
    } else if blank_until(bytes, upto) {
        0
    } else {
        (decoded_until(bytes, upto - 1) * 35 + letter_value(bytes[upto - 1]))
            % 0x1_0000_0000_0000_0000
    }
}

/// The seed for which thirteen bytes stand.
pub open spec fn decoded(bytes: Seq<u8>) -> i64 {
    decoded_until(bytes, 13) as u64 as i64
}

/// The unsigned value of the first `upto` bytes where every blank is
/// passed over, wherever it stands.
pub open spec fn compact_decoded_until(bytes: Seq<u8>, upto: int) -> int
    decreases upto,
{
    if upto <= 0 {
        0
    } else if bytes[upto - 1] == BLANK {
        compact_decoded_until(bytes, upto - 1)
    } else {
        (compact_decoded_until(bytes, upto - 1) * 35 + letter_value(bytes[upto - 1]))
            % 0x1_0000_0000_0000_0000
    }
}

/// A byte that may stand in a seed string: a blank, a decimal digit or a
/// capital letter.
pub open spec fn accepted(c: u8) -> bool {
    c == BLANK || (48 <= c <= 57) || (65 <= c <= 90)
}

/// A byte as it is kept in a seed string: `O` becomes `0`.
pub open spec fn normal(c: u8) -> u8 {
    if c == 79 {
        48
    } else {
        c
    }
}

/// The first fault found when a text is read from its end, from the
/// `done`-th byte from the right on: a fourteenth byte, or a byte that is
/// not accepted.
pub open spec fn first_fault(bytes: Seq<u8>, done: int) -> Option<Error>
    decreases bytes.len() - done,
{
    if done >= bytes.len() || done < 0 {
        None
    } else if done >= 13 {
        Some(Error::InvalidLength(bytes.len() as usize))
    } else if !accepted(bytes[bytes.len() - 1 - done]) {
        Some(Error::InvalidCharacter(bytes[bytes.len() - 1 - done]))
    } else {
        first_fault(bytes, done + 1)
    }
}

/// The bytes of a text of at most thirteen bytes, right-aligned among
/// blanks.
pub open spec fn aligned(bytes: Seq<u8>) -> Seq<u8> {
    Seq::new(
        13,
        |i: int|
            if i < 13 - bytes.len() {
                BLANK
            } else {
                normal(bytes[i - (13 - bytes.len())])
            },
    )
}

/// The seed string for which a text stands, or the first fault found from
/// its end.
pub open spec fn parsed(bytes: Seq<u8>) -> Result<Seq<u8>, Error> {
    match first_fault(bytes, 0) {
        Some(fault) => Err(fault),
        None => Ok(aligned(bytes)),
    }
}

/// The text of a seed string without its leading blanks, from byte `from`
/// on.
pub open spec fn shown_from(bytes: Seq<u8>, from: int) -> Seq<char>
    decreases 13 - from,
{
    if from >= 13 || from < 0 {
        Seq::empty()
    } else if blank_until(bytes, from + 1) {
        shown_from(bytes, from + 1)
    } else {
        seq![bytes[from] as char] + shown_from(bytes, from + 1)
    }
}

/// The value that seeds the generator for a seed and an offset: their sum
/// in wrapping arithmetic, read as unsigned.
pub open spec fn offset_seed(seed: i64, offset: i64) -> u64 {
    vstd::wrapping::i64_specs::wrapping_add(seed, offset) as u64
}

/// The letter of a digit of base 35.
pub fn letter(index: u64) -> (c: u8)
    requires
        index < 35,
    ensures
        c == letter_at(index as int),
        letter_value(c) == index,
        c != BLANK,
{
    if index < 10 {
        48 + index as u8
    } else if index < 24 {
        65 + (index as u8 - 10)
    } else {
        65 + (index as u8 - 9)
    }
}

/// The digit of base 35 for which a byte stands.
pub fn letter_index(letter: u8) -> (index: u8)
    ensures
        index == letter_value(letter),
{
    if letter == 79 {
        0
    } else if letter < 65 {
        letter.wrapping_sub(48)
    } else if letter < 79 {
        letter.wrapping_sub(65).wrapping_add(10)
    } else {
        letter.wrapping_sub(65).wrapping_add(9)
    }
}

impl Seed {
    /// The generator seeded with the seed itself.
    pub fn rng(&self) -> (rng: Rng)
        ensures
            rng@ == xs128_seeded(self.seed as u64),
    {
        self.offset_rng(0)
    }

    /// The generator seeded with the seed plus `offset`, in wrapping
    /// arithmetic.
    pub fn offset_rng(&self, offset: i64) -> (rng: Rng)
        ensures
            rng@ == xs128_seeded(offset_seed(self.seed, offset)),
    {
        Rng::new(self.seed.wrapping_add(offset) as u64)
    }

    /// The generator from which the map of `act` is generated.
    pub fn map_rng(&self, act: Act) -> (rng: Rng)
        requires
            act == Act::One,
        ensures
            rng@ == xs128_seeded(offset_seed(self.seed, 1)),
    {
        self.offset_rng(act.seed_offset())
    }
}

impl SeedString {
    /// The seed string with the given thirteen bytes.
    pub fn const_new(seed: &[u8; 13]) -> (r: Self)
        ensures
            r.seed == *seed,
    {
        SeedString { seed: *seed }
    }

    /// The seed string for which a text stands: the text right-aligned,
    /// with `0` for every `O`. A text is refused for its rightmost fault: a
    /// fourteenth character, or a character that is neither a blank, a
    /// decimal digit nor a capital letter.
    pub fn parse(s: &str) -> (r: Result<Self, Error>)
        ensures
            match r {
                Ok(string) => parsed(s.spec_bytes()) == Ok::<Seq<u8>, Error>(string.seed@),
                Err(fault) => parsed(s.spec_bytes()) == Err::<Seq<u8>, Error>(fault),
            },
    {
        let bytes = s.as_bytes();
        let len = bytes.len();
        let mut seed: [u8; 13] = [BLANK; 13];
        let mut done: usize = 0;
        while done < len
            invariant
                done <= len,
                len == bytes@.len(),
                bytes@ == s.spec_bytes(),
                done <= 13,
                first_fault(bytes@, done as int) == first_fault(bytes@, 0),
                forall|i: int| 0 <= i < 13 - done ==> seed[i] == BLANK,
                forall|i: int| 13 - done <= i < 13 ==> seed[i] == normal(bytes@[i - (13 - len)]),
            decreases len - done,
        {
            if done >= 13 {
                return Err(Error::InvalidLength(len));
            }
            let c = bytes[len - 1 - done];
            if c == BLANK {
                seed[12 - done] = BLANK;
            } else if c == 79 {
                seed[12 - done] = 48;
            } else if (48 <= c && c <= 57) || (65 <= c && c <= 90) {
                seed[12 - done] = c;
            } else {
                return Err(Error::InvalidCharacter(c));
            }
            done = done + 1;
        }
        assert(seed@ =~= aligned(bytes@));
        Ok(SeedString { seed })
    }

    /// The seed for which the string stands, every blank passed over.
    pub fn const_seed(&self) -> (seed: Seed)
        ensures
            seed.seed == compact_decoded_until(self.seed@, 13) as u64 as i64,
    {
        let mut value: u64 = 0;
        let mut i: usize = 0;
        while i < 13
            invariant
                i <= 13,
                value == compact_decoded_until(self.seed@, i as int),
            decreases 13 - i,
        {
            let letter = self.seed[i];
            if letter != BLANK {
                let index = letter_index(letter);
                proof {
                    lemma_wrapping_step(value, index);
                }
                value = value.wrapping_mul(BASE);
                value = value.wrapping_add(index as u64);
            }
            i = i + 1;
        }
        Seed { seed: value as i64 }
    }

    /// The text of the seed string: its characters without the leading
    /// blanks.
    pub fn to_string(&self) -> (text: String)
        ensures
            text@ == shown_from(self.seed@, 0),
    {
        let mut text = String::new();
        let mut started = false;
        let mut i: usize = 0;
        while i < 13
            invariant
                i <= 13,
                started == !blank_until(self.seed@, i as int),
                text@ + shown_from(self.seed@, i as int) == shown_from(self.seed@, 0),
            decreases 13 - i,
        {
            let c = self.seed[i];
            let ghost before = text@;
            if started || c != BLANK {
                started = true;
                push_char(&mut text, c as char);
                assert(text@ + shown_from(self.seed@, i + 1) =~= before + (seq![c as char]
                    + shown_from(self.seed@, i + 1)));
            }
            i = i + 1;
        }
        assert(text@ + Seq::<char>::empty() =~= text@);
        text
    }
}

impl std::str::FromStr for SeedString {
    type Err = Error;

    fn from_str(s: &str) -> (r: Result<Self, Error>)
        ensures
            match r {
                Ok(string) => parsed(s.spec_bytes()) == Ok::<Seq<u8>, Error>(string.seed@),
                Err(fault) => parsed(s.spec_bytes()) == Err::<Seq<u8>, Error>(fault),
            },
    {
        SeedString::parse(s)
    }
}

/// One step of wrapping arithmetic in base 35.
pub proof fn lemma_wrapping_step(value: u64, index: u8)
    ensures
        vstd::wrapping::u64_specs::wrapping_add(
            vstd::wrapping::u64_specs::wrapping_mul(value, 35),
            index as u64,
        ) == (value * 35 + index) % 0x1_0000_0000_0000_0000,
{
    let m = vstd::wrapping::u64_specs::wrapping_mul(value, 35);
    assert(m == (value * 35) % 0x1_0000_0000_0000_0000);
    let a = vstd::wrapping::u64_specs::wrapping_add(m, index as u64);
    assert(a == (m + index) % 0x1_0000_0000_0000_0000);
    assert(((value * 35) % 0x1_0000_0000_0000_0000 + index) % 0x1_0000_0000_0000_0000 == (value
        * 35 + index) % 0x1_0000_0000_0000_0000);
}

/// The seed for which thirteen bytes stand: after the leading blanks every
/// byte is one more digit.
pub fn decode(bytes: &[u8; 13]) -> (seed: Seed)
    ensures
        seed.seed == decoded(bytes@),
{
    let mut value: u64 = 0;
    let mut started = false;
    let mut i: usize = 0;
    while i < 13
        invariant
            i <= 13,
            started == !blank_until(bytes@, i as int),
            value == decoded_until(bytes@, i as int),
        decreases 13 - i,
    {
        let letter = bytes[i];
        if started || letter != BLANK {
            started = true;
            let index = letter_index(letter);
            proof {
                lemma_wrapping_step(value, index);
            }
            value = value.wrapping_mul(BASE);
            value = value.wrapping_add(index as u64);
        }
        i = i + 1;
    }
    Seed { seed: value as i64 }
}

/// The seed string of a seed: the digits of base 35 of the seed read as
/// unsigned, most significant first, with blanks for the leading zeros.
pub fn encode(seed: Seed) -> (string: SeedString)
    ensures
        string.seed@ == encoded(seed.seed as u64 as int),
{
    let mut value: u64 = #[verifier::truncate] (seed.seed as u64);
    let mut s: [u8; 13] = [BLANK; 13];
    let mut i: usize = 13;
    while i > 0 && value != 0
        invariant
            i <= 13,
            value == shifted(seed.seed as u64 as int, 13 - i),
            forall|j: int| i <= j < 13 ==> s[j] == encoded(seed.seed as u64 as int)[j],
            forall|j: int| 0 <= j < i ==> s[j] == BLANK,
        decreases i,
    {
        i = i - 1;
        let c = value % BASE;
        s[i] = letter(c);
        value = value / BASE;
    }
    proof {
        let u = seed.seed as u64 as int;
        if i > 0 {
            lemma_shifted_zero(u, 13 - i, 13);
            assert forall|j: int| 0 <= j < i implies encoded(u)[j] == BLANK by {
                lemma_shifted_zero(u, 13 - i, 12 - j);
            }
        }
        assert(s@ =~= encoded(u));
    }
    SeedString { seed: s }
}

/// Once the shifted value is zero it stays zero.
pub proof fn lemma_shifted_zero(value: int, from: int, times: int)
    requires
        0 <= from <= times,
        shifted(value, from) == 0,
    ensures
        shifted(value, times) == 0,
    decreases times - from,
{
    if from < times {
        lemma_shifted_zero(value, from, times - 1);
    }
}

impl From<i64> for Seed {
    fn from(seed: i64) -> (r: Self) {
        Seed { seed }
    }
}

impl vstd::std_specs::convert::FromSpecImpl<i64> for Seed {
    open spec fn obeys_from_spec() -> bool {
        true
    }

    open spec fn from_spec(seed: i64) -> Self {
        Seed { seed }
    }
}

impl From<u64> for Seed {
    fn from(seed: u64) -> (r: Self) {
        Seed { seed: seed as i64 }
    }
}

impl vstd::std_specs::convert::FromSpecImpl<u64> for Seed {
    open spec fn obeys_from_spec() -> bool {
        true
    }

    open spec fn from_spec(seed: u64) -> Self {
        Seed { seed: seed as i64 }
    }
}

impl From<[u8; 13]> for Seed {
    fn from(value: [u8; 13]) -> (r: Self) {
        decode(&value)
    }
}

impl vstd::std_specs::convert::FromSpecImpl<[u8; 13]> for Seed {
    open spec fn obeys_from_spec() -> bool {
        true
    }

    open spec fn from_spec(value: [u8; 13]) -> Self {
        Seed { seed: decoded(value@) }
    }
}

impl From<&[u8; 13]> for Seed {
    fn from(value: &[u8; 13]) -> (r: Self) {
        decode(value)
    }
}

impl vstd::std_specs::convert::FromSpecImpl<&[u8; 13]> for Seed {
    open spec fn obeys_from_spec() -> bool {
        true
    }

    open spec fn from_spec(value: &[u8; 13]) -> Self {
        Seed { seed: decoded(value@) }
    }
}

impl From<SeedString> for Seed {
    fn from(value: SeedString) -> (r: Self) {
        decode(&value.seed)
    }
}

impl vstd::std_specs::convert::FromSpecImpl<SeedString> for Seed {
    open spec fn obeys_from_spec() -> bool {
        true
    }

    open spec fn from_spec(value: SeedString) -> Self {
        Seed { seed: decoded(value.seed@) }
    }
}

impl From<Seed> for SeedString {
    fn from(value: Seed) -> (r: Self)
        ensures
            r.seed@ == encoded(value.seed as u64 as int),
    {
        let r = encode(value);
        proof {
            let other = string_of(value);
            assert(other.seed@ == encoded(value.seed as u64 as int));
            assert(r.seed@ =~= other.seed@);
            assert(r.seed == other.seed);
        }
        r
    }
}

impl vstd::std_specs::convert::FromSpecImpl<Seed> for SeedString {
    open spec fn obeys_from_spec() -> bool {
        true
    }

    open spec fn from_spec(value: Seed) -> Self {
        string_of(value)
    }
}

/// The seed string of a seed.
pub open spec fn string_of(value: Seed) -> SeedString {
    choose|string: SeedString| string.seed@ == encoded(value.seed as u64 as int)
}

/// Thirteen digits of base 35 hold every unsigned 64-bit value.
pub proof fn lemma_thirteen_digits(value: int)
    requires
        0 <= value <= u64::MAX,
    ensures
        shifted(value, 13) == 0,
        forall|k: int| 0 <= k <= 13 ==> 0 <= #[trigger] shifted(value, k) <= value,
{
    reveal_with_fuel(shifted, 14);
}

/// What the first `upto` bytes of an encoded value hold and stand for: they
/// are all blank as long as the digits so far are zeros, and their value is
/// that of the digits so far.
pub proof fn lemma_decoded_prefix(value: int, upto: int)
    requires
        0 <= value <= u64::MAX,
        0 <= upto <= 13,
    ensures
        blank_until(encoded(value), upto) <==> shifted(value, 13 - upto) == 0,
        decoded_until(encoded(value), upto) == shifted(value, 13 - upto),
    decreases upto,
{
    lemma_thirteen_digits(value);
    if upto > 0 {
        lemma_decoded_prefix(value, upto - 1);
        let e = encoded(value);
        let q = shifted(value, 13 - upto);
        assert(shifted(value, 13 - (upto - 1)) == q / 35);
        assert(e[upto - 1] == if q == 0 {
            BLANK
        } else {
            letter_at(q % 35)
        });
        if q != 0 {
            assert(letter_value(letter_at(q % 35)) == q % 35);
            assert(letter_at(q % 35) != BLANK);
            assert((q / 35) * 35 + q % 35 == q);
        }
    }
}

/// Every seed is the seed of its own seed string, and its seed string
/// parses to itself.
pub proof fn lemma_seed_round_trip(seed: i64)
    ensures
        decoded(encoded(seed as u64 as int)) == seed,
        parsed(encoded(seed as u64 as int)) == Ok::<Seq<u8>, Error>(encoded(seed as u64 as int)),
        compact_decoded_until(encoded(seed as u64 as int), 13) as u64 as i64 == seed,
{
    let value = seed as u64 as int;
    let e = encoded(value);
    lemma_decoded_prefix(value, 13);
    assert(seed as u64 as i64 == seed) by (bit_vector);
    lemma_encoded_is_accepted(value, 0);
    assert(aligned(e) =~= e) by {
        assert forall|i: int| 0 <= i < 13 implies aligned(e)[i] == e[i] by {
            lemma_thirteen_digits(value);
            let q = shifted(value, 12 - i);
            if q != 0 {
                assert(letter_at(q % 35) != 79);
            }
        }
    }
    lemma_compact_decoded_prefix(value, 13);
}

/// The text shown for a seed string is its bytes from the first that is no
/// blank on: what the text leaves out, from byte `from` on, are blanks, and
/// where a byte before `from` is no blank the text leaves nothing out.
pub proof fn lemma_shown_is_the_tail(bytes: Seq<u8>, from: int)
    requires
        bytes.len() == 13,
        0 <= from <= 13,
    ensures
        shown_from(bytes, from).len() <= 13 - from,
        !blank_until(bytes, from) ==> shown_from(bytes, from).len() == 13 - from,
        forall|i: int| from <= i < 13 - shown_from(bytes, from).len() ==> bytes[i] == BLANK,
        forall|j: int|
            0 <= j < shown_from(bytes, from).len() ==> #[trigger] shown_from(bytes, from)[j]
                == bytes[13 - shown_from(bytes, from).len() + j] as char,
    decreases 13 - from,
{
    if from < 13 {
        lemma_shown_is_the_tail(bytes, from + 1);
        if !blank_until(bytes, from + 1) {
            assert(!blank_until(bytes, from + 2));
        }
    }
}

/// A text of at most thirteen accepted bytes shows no fault.
pub proof fn lemma_accepted_text_has_no_fault(bytes: Seq<u8>, done: int)
    requires
        bytes.len() <= 13,
        0 <= done,
        forall|i: int| 0 <= i < bytes.len() ==> accepted(#[trigger] bytes[i]),
    ensures
        first_fault(bytes, done) is None,
    decreases bytes.len() - done,
{
    if done < bytes.len() {
        lemma_accepted_text_has_no_fault(bytes, done + 1);
    }
}

/// The text shown for a seed string of accepted bytes without `O` parses
/// back to that seed string.
pub proof fn lemma_shown_text_parses_back(bytes: Seq<u8>)
    requires
        bytes.len() == 13,
        forall|i: int| 0 <= i < 13 ==> accepted(#[trigger] bytes[i]) && bytes[i] != 79,
    ensures
        parsed(vstd::utf8::encode_utf8(shown_from(bytes, 0))) == Ok::<Seq<u8>, Error>(bytes),
{
    let text = shown_from(bytes, 0);
    lemma_shown_is_the_tail(bytes, 0);
    assert(vstd::utf8::is_ascii_chars(text)) by {
        assert forall|j: int| 0 <= j < text.len() implies '\0' <= #[trigger] text[j]
            <= '\u{7f}' by {
            assert(accepted(bytes[13 - text.len() + j]));
        }
    }
    vstd::utf8::is_ascii_chars_encode_utf8(text);
    let shown = vstd::utf8::encode_utf8(text);
    assert forall|j: int| 0 <= j < shown.len() implies #[trigger] shown[j] == bytes[13
        - shown.len() + j] by {
        assert(text[j] == bytes[13 - text.len() + j] as char);
        assert(accepted(bytes[13 - text.len() + j]));
    }
    assert forall|j: int| 0 <= j < shown.len() implies accepted(#[trigger] shown[j]) by {
        assert(accepted(bytes[13 - shown.len() + j]));
    }
    lemma_accepted_text_has_no_fault(shown, 0);
    assert(aligned(shown) =~= bytes) by {
        assert forall|i: int| 0 <= i < 13 implies aligned(shown)[i] == bytes[i] by {
            if i >= 13 - shown.len() {
                assert(shown[i - (13 - shown.len())] == bytes[i]);
                assert(accepted(bytes[i]) && bytes[i] != 79);
            }
        }
    }
}

/// The text shown for the seed string of a seed parses back to that seed
/// string, and so to the seed.
pub proof fn lemma_seed_text_round_trip(seed: i64)
    ensures
        parsed(vstd::utf8::encode_utf8(shown_from(encoded(seed as u64 as int), 0))) == Ok::<
            Seq<u8>,
            Error,
        >(encoded(seed as u64 as int)),
        decoded(encoded(seed as u64 as int)) == seed,
{
    let value = seed as u64 as int;
    let e = encoded(value);
    lemma_seed_round_trip(seed);
    assert forall|i: int| 0 <= i < 13 implies accepted(#[trigger] e[i]) && e[i] != 79 by {
        lemma_thirteen_digits(value);
        let q = shifted(value, 12 - i);
        if q != 0 {
            assert(letter_at(q % 35) != 79);
            assert(accepted(letter_at(q % 35)));
        }
    }
    lemma_shown_text_parses_back(e);
}

/// Read from its end, an encoded value shows no fault.
pub proof fn lemma_encoded_is_accepted(value: int, done: int)
    requires
        0 <= value <= u64::MAX,
        0 <= done <= 13,
    ensures
        first_fault(encoded(value), done) is None,
    decreases 13 - done,
{
    if done < 13 {
        lemma_thirteen_digits(value);
        let q = shifted(value, 12 - (12 - done));
        assert(encoded(value)[12 - done] == if q == 0 {
            BLANK
        } else {
            letter_at(q % 35)
        });
        lemma_encoded_is_accepted(value, done + 1);
    }
}

/// The value of an encoded prefix is the same when blanks are passed over
/// wherever they stand, for an encoded value has blanks only in front.
pub proof fn lemma_compact_decoded_prefix(value: int, upto: int)
    requires
        0 <= value <= u64::MAX,
        0 <= upto <= 13,
    ensures
        compact_decoded_until(encoded(value), upto) == shifted(value, 13 - upto),
    decreases upto,
{
    lemma_thirteen_digits(value);
    if upto > 0 {
        lemma_compact_decoded_prefix(value, upto - 1);
        let e = encoded(value);
        let q = shifted(value, 13 - upto);
        assert(shifted(value, 13 - (upto - 1)) == q / 35);
        assert(e[upto - 1] == if q == 0 {
            BLANK
        } else {
            letter_at(q % 35)
        });
        if q != 0 {
            assert(letter_value(letter_at(q % 35)) == q % 35);
            assert(letter_at(q % 35) != BLANK);
            assert((q / 35) * 35 + q % 35 == q);
        }
    }
}

} // verus!
