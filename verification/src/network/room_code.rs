//! Short room codes that people can read out and type in.

use crate::text::{ascii_uppercase, char_is_alphanumeric};
use libp2p::PeerId;
use vstd::prelude::*;

verus! {

/// The number of characters in a room code.
pub const CODE_LEN: usize = 6;

/// The number of characters in the code alphabet.
pub const ALPHABET_LEN: u64 = 27;

/// The code alphabet: digits and upper-case letters without the glyphs that
/// are easily confused (0/O, 1/I/L, 5/S, 2/Z).
pub open spec fn alphabet() -> Seq<char> {
    seq![
        '3', '4', '6', '7', '8', '9', 'A', 'B', 'C', 'D', 'E', 'F', 'G', 'H', 'J', 'K', 'M', 'N',
        'P', 'Q', 'R', 'T', 'U', 'V', 'W', 'X', 'Y',
    ]
}

/// Whether `c` is one of the 27 characters of the code alphabet.
pub open spec fn in_alphabet(c: char) -> bool {
    alphabet().contains(c)
}

/// The alphabet character that stands for the base-27 digit `digit`.
fn alphabet_char(digit: u64) -> (c: char)
    requires
        digit < ALPHABET_LEN,
    ensures
        c == alphabet()[digit as int],
        in_alphabet(c),
{
    let c = match digit {
        0 => '3',
        1 => '4',
        2 => '6',
        3 => '7',
        4 => '8',
        5 => '9',
        6 => 'A',
        7 => 'B',
        8 => 'C',
        9 => 'D',
        10 => 'E',
        11 => 'F',
        12 => 'G',
        13 => 'H',
        14 => 'J',
        15 => 'K',
        16 => 'M',
        17 => 'N',
        18 => 'P',
        19 => 'Q',
        20 => 'R',
        21 => 'T',
        22 => 'U',
        23 => 'V',
        24 => 'W',
        25 => 'X',
        _ => 'Y',
    };
    assert(alphabet()[digit as int] == c);
    c
}

/// A code as it should be: `CODE_LEN` characters, each of the alphabet.
pub open spec fn well_formed(code: Seq<char>) -> bool {
    &&& code.len() == CODE_LEN
    &&& forall|i: int| 0 <= i < code.len() ==> in_alphabet(#[trigger] code[i])
}

/// What is left of typed input once everything but letters and digits is
/// dropped and the ASCII letters are put in upper case.
pub open spec fn normalize(input: Seq<char>) -> Seq<char> {
    input.filter(|c: char| char_is_alphanumeric(c)).map_values(|c: char| ascii_uppercase(c))
}

/// The code that typed input stands for, if it stands for one.
pub open spec fn parse_spec(input: Seq<char>) -> Option<Seq<char>> {
    if well_formed(normalize(input)) {
        Some(normalize(input))
    } else {
        None
    }
}

/// The form in which a code is shown: a hyphen between its two halves.
pub open spec fn display_spec(code: Seq<char>) -> Seq<char> {
    code.take(CODE_LEN as int / 2) + seq!['-'] + code.skip(CODE_LEN as int / 2)
}

/// Reading one more character extends the normal form by at most one
/// character.
pub proof fn lemma_normalize_push(input: Seq<char>, c: char)
    ensures
        normalize(input.push(c)) == if char_is_alphanumeric(c) {
            normalize(input).push(ascii_uppercase(c))
        } else {
            normalize(input)
        },
{
    let keep = |c: char| char_is_alphanumeric(c);
    let upper = |c: char| ascii_uppercase(c);
    assert(input.push(c).drop_last() == input);
    reveal(Seq::filter);
    if char_is_alphanumeric(c) {
        assert(input.push(c).filter(keep) == input.filter(keep).push(c));
        assert(input.filter(keep).push(c).map_values(upper) == input.filter(keep).map_values(
            upper,
        ).push(ascii_uppercase(c)));
    } else {
        assert(input.push(c).filter(keep) == input.filter(keep));
    }
}

/// The weight of the byte at position `i` of a little-endian number.
pub open spec fn byte_weight(i: nat) -> nat
    decreases i,
{
    if i == 0 {
        1
    } else {
        256 * byte_weight((i - 1) as nat)
    }
}

/// The number that `bytes` spell, least significant byte first.
pub open spec fn le_value(bytes: Seq<u8>) -> nat
    decreases bytes.len(),
{
    if bytes.len() == 0 {
        0
    } else {
        le_value(bytes.drop_last()) + bytes.last() as nat * byte_weight((bytes.len() - 1) as nat)
    }
}

/// The `count` lowest base-27 digits of `n`, lowest first, each written as
/// its alphabet character.
pub open spec fn base27_digits(n: nat, count: nat) -> Seq<char>
    decreases count,
{
    if count == 0 {
        Seq::empty()
    } else {
        seq![alphabet()[(n % 27) as int]] + base27_digits(n / 27, (count - 1) as nat)
    }
}

/// The code for a run of bytes: the first `CODE_LEN` of them, read as a
/// little-endian number and written as `CODE_LEN` base-27 digits.
pub open spec fn encode_spec(bytes: Seq<u8>) -> Seq<char> {
    let used = if bytes.len() < CODE_LEN {
        bytes
    } else {
        bytes.take(CODE_LEN as int)
    };
    base27_digits(le_value(used), CODE_LEN as nat)
}

/// The first weights, and with them the largest number that `CODE_LEN` bytes
/// can spell.
pub proof fn lemma_byte_weights()
    ensures
        byte_weight(0) == 1,
        byte_weight(1) == 0x100,
        byte_weight(2) == 0x1_0000,
        byte_weight(3) == 0x100_0000,
        byte_weight(4) == 0x1_0000_0000,
        byte_weight(5) == 0x100_0000_0000,
        byte_weight(6) == 0x1_0000_0000_0000,
{
    reveal_with_fuel(byte_weight, 7);
}

/// A run of `len` bytes spells a number below the weight of position `len`.
pub proof fn lemma_le_value_bound(bytes: Seq<u8>)
    ensures
        le_value(bytes) < byte_weight(bytes.len()),
    decreases bytes.len(),
{
    if bytes.len() > 0 {
        lemma_le_value_bound(bytes.drop_last());
        let w = byte_weight((bytes.len() - 1) as nat);
        let b = bytes.last() as nat;
        assert(b * w <= 255 * w) by (nonlinear_arith)
            requires
                b <= 255,
        ;
    }
}

/// Base-27 digits always make a string of the asked length over the
/// alphabet.
pub proof fn lemma_base27_digits_well_formed(n: nat, count: nat)
    ensures
        base27_digits(n, count).len() == count,
        forall|i: int| 0 <= i < count ==> in_alphabet(#[trigger] base27_digits(n, count)[i]),
    decreases count,
{
    if count > 0 {
        lemma_base27_digits_well_formed(n / 27, (count - 1) as nat);
        lemma_alphabet_members();
        let head = alphabet()[(n % 27) as int];
        let rest = base27_digits(n / 27, (count - 1) as nat);
        assert(in_alphabet(head));
        assert forall|i: int| 0 <= i < count implies in_alphabet(
            #[trigger] base27_digits(n, count)[i],
        ) by {
            if i > 0 {
                assert(base27_digits(n, count)[i] == rest[i - 1]);
            }
        }
    }
}

/// Whatever the bytes, their code is well formed.
pub proof fn lemma_encode_well_formed(bytes: Seq<u8>)
    ensures
        well_formed(encode_spec(bytes)),
{
    let used = if bytes.len() < CODE_LEN {
        bytes
    } else {
        bytes.take(CODE_LEN as int)
    };
    lemma_base27_digits_well_formed(le_value(used), CODE_LEN as nat);
}

/// The code for a run of bytes, of which the first `CODE_LEN` count.
pub fn encode_bytes(bytes: &[u8]) -> (code: String)
    ensures
        code@ == encode_spec(bytes@),
        well_formed(code@),
{
    let used: usize = if bytes.len() < CODE_LEN {
        bytes.len()
    } else {
        CODE_LEN
    };
    let mut accumulator: u64 = 0;
    let mut weight: u64 = 1;
    let mut i: usize = 0;
    proof {
        lemma_byte_weights();
    }
    while i < used
        invariant
            i <= used <= CODE_LEN,
            used <= bytes@.len(),
            weight == byte_weight(i as nat),
            accumulator == le_value(bytes@.take(i as int)),
        decreases used - i,
    {
        proof {
            lemma_byte_weights();
            lemma_le_value_bound(bytes@.take(i as int));
            assert(bytes@.take(i + 1).drop_last() == bytes@.take(i as int));
            let b = bytes@[i as int] as nat;
            let w = weight as nat;
            assert(b * w <= 255 * w) by (nonlinear_arith)
                requires
                    b <= 255,
            ;
        }
        accumulator = accumulator + (bytes[i] as u64) * weight;
        i = i + 1;
        if i < CODE_LEN {
            weight = weight * 256;
        } else {
            weight = 0x1_0000_0000_0000;
        }
    }
    proof {
        if bytes@.len() < CODE_LEN {
            assert(bytes@.take(used as int) == bytes@);
        }
        lemma_encode_well_formed(bytes@);
    }
    let ghost value = accumulator as nat;
    let mut code = String::new();
    let mut written: usize = 0;
    while written < CODE_LEN
        invariant
            written <= CODE_LEN,
            code@ + base27_digits(accumulator as nat, (CODE_LEN - written) as nat) == base27_digits(
                value,
                CODE_LEN as nat,
            ),
        decreases CODE_LEN - written,
    {
        let ghost before = code@;
        let digit = alphabet_char(accumulator % ALPHABET_LEN);
        code.push(digit);
        proof {
            let rest = base27_digits(
                (accumulator / ALPHABET_LEN) as nat,
                (CODE_LEN - written - 1) as nat,
            );
            assert(before.push(digit) + rest == before + (seq![digit] + rest));
        }
        accumulator = accumulator / ALPHABET_LEN;
        written = written + 1;
    }
    assert(code@ + Seq::<char>::empty() == code@);
    code
}

/// A peer identity of the transport. Nothing of its inside is known here.
#[verifier::external_type_specification]
#[verifier::external_body]
pub struct ExPeerId(libp2p::PeerId);

/// The bytes of a peer identity: its multihash, as `PeerId::to_bytes` gives
/// it.
pub uninterp spec fn peer_id_bytes(peer_id: PeerId) -> Seq<u8>;

/// `PeerId::to_bytes`: the raw bytes of the identity's multihash. Nothing is
/// claimed of them but that one identity always has the same bytes.
#[verifier::external_body]
fn peer_id_to_bytes(peer_id: &PeerId) -> (bytes: Vec<u8>)
    ensures
        bytes@ == peer_id_bytes(*peer_id),
{
    peer_id.to_bytes()
}

/// `PeerId::random`: an identity drawn from a cryptographically secure
/// generator. Nothing is claimed of the outcome.
#[verifier::external_body]
fn random_peer_id() -> PeerId {
    PeerId::random()
}

/// The number of bytes that stand before the digest in a peer identity.
pub const MULTIHASH_PREFIX_LEN: usize = 2;

/// The bytes of an identity that its code is made of: up to `CODE_LEN` bytes
/// after the prefix.
pub open spec fn code_bytes(identity: Seq<u8>) -> Seq<u8> {
    if identity.len() <= MULTIHASH_PREFIX_LEN {
        Seq::empty()
    } else if identity.len() < MULTIHASH_PREFIX_LEN + CODE_LEN {
        identity.skip(MULTIHASH_PREFIX_LEN as int)
    } else {
        identity.subrange(MULTIHASH_PREFIX_LEN as int, (MULTIHASH_PREFIX_LEN + CODE_LEN) as int)
    }
}

/// A room code: `CODE_LEN` characters of the alphabet.
#[derive(Debug, PartialEq, Eq, Hash)]
pub struct RoomCode {
    code: String,
}

impl View for RoomCode {
    type V = Seq<char>;

    closed spec fn view(&self) -> Seq<char> {
        self.code@
    }
}

impl Clone for RoomCode {
    fn clone(&self) -> (copy: Self)
        ensures
            copy@ == self@,
    {
        proof {
            use_type_invariant(self);
        }
        RoomCode { code: self.code.clone() }
    }
}

impl RoomCode {
    #[verifier::type_invariant]
    spec fn inv(&self) -> bool {
        well_formed(self.code@)
    }

    /// The code without the hyphen.
    pub fn as_str(&self) -> (s: &str)
        ensures
            s@ == self@,
            well_formed(s@),
    {
        proof {
            use_type_invariant(self);
        }
        self.code.as_str()
    }

    /// The code in the form in which it is shown: `XXX-XXX`.
    pub fn to_display_string(&self) -> (shown: String)
        ensures
            shown@ == display_spec(self@),
    {
        proof {
            use_type_invariant(self);
        }
        let code = self.code.as_str();
        let mut shown = String::new();
        let mut i: usize = 0;
        while i < CODE_LEN
            invariant
                i <= CODE_LEN,
                code@ == self@,
                code@.len() == CODE_LEN,
                shown@ == if i <= CODE_LEN / 2 {
                    code@.take(i as int)
                } else {
                    code@.take(CODE_LEN as int / 2) + seq!['-'] + code@.subrange(
                        CODE_LEN as int / 2,
                        i as int,
                    )
                },
            decreases CODE_LEN - i,
        {
            if i == CODE_LEN / 2 {
                shown.push('-');
            }
            shown.push(code.get_char(i));
            i = i + 1;
        }
        assert(code@.subrange(CODE_LEN as int / 2, CODE_LEN as int) == code@.skip(
            CODE_LEN as int / 2,
        ));
        shown
    }

    /// The code of a peer identity given by its bytes: the bytes after the
    /// two-byte multihash prefix, as far as `CODE_LEN`, re-encoded.
    pub fn from_identity_bytes(identity: &[u8]) -> (code: RoomCode)
        ensures
            code@ == encode_spec(code_bytes(identity@)),
    {
        let len = identity.len();
        let start = if len < MULTIHASH_PREFIX_LEN {
            len
        } else {
            MULTIHASH_PREFIX_LEN
        };
        let end = if len < MULTIHASH_PREFIX_LEN + CODE_LEN {
            len
        } else {
            MULTIHASH_PREFIX_LEN + CODE_LEN
        };
        let tail = vstd::slice::slice_subrange(identity, start, end);
        proof {
            assert(tail@ == code_bytes(identity@));
        }
        RoomCode { code: encode_bytes(tail) }
    }

    /// The code that belongs to a peer identity. One identity always has
    /// the same code.
    pub fn from_peer_id(peer_id: &PeerId) -> (code: RoomCode)
        ensures
            code@ == encode_spec(code_bytes(peer_id_bytes(*peer_id))),
    {
        let bytes = peer_id_to_bytes(peer_id);
        RoomCode::from_identity_bytes(bytes.as_slice())
    }

    /// A fresh code, drawn from a cryptographically secure generator: the
    /// code of a random peer identity.
    pub fn random() -> (code: RoomCode)
        ensures
            exists|identity: PeerId| code@ == encode_spec(code_bytes(peer_id_bytes(identity))),
    {
        let identity = random_peer_id();
        RoomCode::from_peer_id(&identity)
    }

    /// Reads a code from what somebody typed: separators and case do not
    /// matter, anything else that differs from a code is refused.
    pub fn parse(input: &str) -> (result: Option<RoomCode>)
        ensures
            result is Some <==> parse_spec(input@) is Some,
            result matches Some(code) ==> parse_spec(input@) == Some(code@),
    {
        let mut normalized = String::new();
        let mut kept: usize = 0;
        let mut all_in_alphabet = true;
        for c in it: input.chars()
            invariant
                it.seq() == input@,
                normalized@ == normalize(input@.take(it.index())),
                kept <= CODE_LEN + 1,
                kept <= CODE_LEN ==> kept == normalized@.len(),
                kept > CODE_LEN ==> normalized@.len() > CODE_LEN,
                all_in_alphabet <==> forall|i: int|
                    0 <= i < normalized@.len() ==> in_alphabet(#[trigger] normalized@[i]),
        {
            proof {
                lemma_normalize_push(input@.take(it.index()), c);
                assert(input@.take(it.index() + 1) == input@.take(it.index()).push(c));
            }
            if c.is_alphanumeric() {
                let upper = c.to_ascii_uppercase();
                let ghost before = normalized@;
                normalized.push(upper);
                if !is_alphabet_char(upper) {
                    all_in_alphabet = false;
                }
                proof {
                    assert(normalized@[before.len() as int] == upper);
                    assert(forall|i: int| 0 <= i < before.len() ==> normalized@[i] == before[i]);
                    if !all_in_alphabet && in_alphabet(upper) {
                        let bad = choose|i: int|
                            0 <= i < before.len() && !in_alphabet(#[trigger] before[i]);
                        assert(!in_alphabet(normalized@[bad]));
                    }
                }
                if kept <= CODE_LEN {
                    kept = kept + 1;
                }
            }
        }
        assert(input@.take(input@.len() as int) == input@);
        if kept == CODE_LEN && all_in_alphabet {
            Some(RoomCode { code: normalized })
        } else {
            None
        }
    }
}

/// The characters of the alphabet are ASCII digits and upper-case letters:
/// normalizing keeps them and leaves them as they are.
pub proof fn lemma_alphabet_normal(c: char)
    requires
        in_alphabet(c),
    ensures
        char_is_alphanumeric(c),
        ascii_uppercase(c) == c,
{
    lemma_alphabet_members();
}

/// Normalizing a well-formed code gives the code back.
pub proof fn lemma_normalize_well_formed(code: Seq<char>)
    requires
        forall|i: int| 0 <= i < code.len() ==> in_alphabet(#[trigger] code[i]),
    ensures
        normalize(code) == code,
    decreases code.len(),
{
    if code.len() == 0 {
        assert(normalize(code) == code) by {
            reveal(Seq::filter);
        }
    } else {
        lemma_normalize_well_formed(code.drop_last());
        lemma_alphabet_normal(code.last());
        lemma_normalize_push(code.drop_last(), code.last());
        assert(code.drop_last().push(code.last()) == code);
    }
}

/// Normalizing runs over a concatenation piece by piece.
pub proof fn lemma_normalize_concat(a: Seq<char>, b: Seq<char>)
    ensures
        normalize(a + b) == normalize(a) + normalize(b),
    decreases b.len(),
{
    if b.len() == 0 {
        assert(a + b == a);
        assert(normalize(b) == Seq::<char>::empty()) by {
            reveal(Seq::filter);
        }
        assert(normalize(a) + Seq::<char>::empty() == normalize(a));
    } else {
        lemma_normalize_concat(a, b.drop_last());
        lemma_normalize_push(a + b.drop_last(), b.last());
        lemma_normalize_push(b.drop_last(), b.last());
        assert((a + b.drop_last()).push(b.last()) == a + b);
        assert(b.drop_last().push(b.last()) == b);
        if char_is_alphanumeric(b.last()) {
            assert((normalize(a) + normalize(b.drop_last())).push(ascii_uppercase(b.last()))
                == normalize(a) + normalize(b.drop_last()).push(ascii_uppercase(b.last())));
        }
    }
}

/// A code that is shown and read again is the same code.
pub proof fn lemma_parse_display_round_trip(code: Seq<char>)
    requires
        well_formed(code),
    ensures
        parse_spec(display_spec(code)) == Some(code),
{
    let half = CODE_LEN as int / 2;
    let front = code.take(half);
    let back = code.skip(half);
    let hyphen = seq!['-'];
    lemma_normalize_concat(front + hyphen, back);
    lemma_normalize_concat(front, hyphen);
    lemma_normalize_well_formed(front);
    lemma_normalize_well_formed(back);
    assert(normalize(hyphen) == Seq::<char>::empty()) by {
        lemma_normalize_push(Seq::<char>::empty(), '-');
        assert(Seq::<char>::empty().push('-') == hyphen);
        assert(normalize(Seq::<char>::empty()) == Seq::<char>::empty()) by {
            reveal(Seq::filter);
        }
    }
    assert(front + Seq::<char>::empty() + back == code);
}

/// Input whose letters and digits do not number `CODE_LEN` is no code.
pub proof fn lemma_parse_rejects_wrong_length(input: Seq<char>)
    requires
        input.filter(|c: char| char_is_alphanumeric(c)).len() != CODE_LEN,
    ensures
        parse_spec(input) is None,
{
}

/// The code of any peer identity is shown and read back unchanged.
pub proof fn lemma_identity_code_round_trip(identity: Seq<u8>)
    ensures
        parse_spec(display_spec(encode_spec(code_bytes(identity)))) == Some(
            encode_spec(code_bytes(identity)),
        ),
{
    lemma_encode_well_formed(code_bytes(identity));
    lemma_parse_display_round_trip(encode_spec(code_bytes(identity)));
}

/// Whether `c` belongs to the code alphabet.
pub fn is_alphabet_char(c: char) -> (r: bool)
    ensures
        r == in_alphabet(c),
{
    let r = c == '3' || c == '4' || c == '6' || c == '7' || c == '8' || c == '9' || c == 'A' || c
        == 'B' || c == 'C' || c == 'D' || c == 'E' || c == 'F' || c == 'G' || c == 'H' || c == 'J'
        || c == 'K' || c == 'M' || c == 'N' || c == 'P' || c == 'Q' || c == 'R' || c == 'T' || c
        == 'U' || c == 'V' || c == 'W' || c == 'X' || c == 'Y';
    proof {
        lemma_alphabet_members();
    }
    r
}

/// The alphabet, character by character.
pub proof fn lemma_alphabet_members()
    ensures
        alphabet().len() == ALPHABET_LEN,
        forall|c: char|
            in_alphabet(c) <==> (c == '3' || c == '4' || c == '6' || c == '7' || c == '8' || c
                == '9' || c == 'A' || c == 'B' || c == 'C' || c == 'D' || c == 'E' || c == 'F' || c
                == 'G' || c == 'H' || c == 'J' || c == 'K' || c == 'M' || c == 'N' || c == 'P' || c
                == 'Q' || c == 'R' || c == 'T' || c == 'U' || c == 'V' || c == 'W' || c == 'X' || c
                == 'Y'),
{
    let a = alphabet();
    assert(a.len() == 27);
    assert forall|c: char|
        (c == '3' || c == '4' || c == '6' || c == '7' || c == '8' || c == '9' || c == 'A' || c
            == 'B' || c == 'C' || c == 'D' || c == 'E' || c == 'F' || c == 'G' || c == 'H' || c
            == 'J' || c == 'K' || c == 'M' || c == 'N' || c == 'P' || c == 'Q' || c == 'R' || c
            == 'T' || c == 'U' || c == 'V' || c == 'W' || c == 'X' || c == 'Y') implies in_alphabet(
        c,
    ) by {
        assert(a[0] == '3' && a[1] == '4' && a[2] == '6' && a[3] == '7' && a[4] == '8' && a[5]
            == '9' && a[6] == 'A' && a[7] == 'B' && a[8] == 'C' && a[9] == 'D' && a[10] == 'E'
            && a[11] == 'F' && a[12] == 'G' && a[13] == 'H' && a[14] == 'J' && a[15] == 'K'
            && a[16] == 'M' && a[17] == 'N' && a[18] == 'P' && a[19] == 'Q' && a[20] == 'R'
            && a[21] == 'T' && a[22] == 'U' && a[23] == 'V' && a[24] == 'W' && a[25] == 'X'
            && a[26] == 'Y');
    }
}

} // verus!
