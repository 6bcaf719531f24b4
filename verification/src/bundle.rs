//! Bundles: transactions that are executed together or not at all.
use crate::processing::TransactionProcessingResult;
use itertools::Itertools;
use sha2::{Digest, Sha256};
use solana_sdk::signature::Signature;
use vstd::prelude::*;
#[allow(unused_imports)]
use vstd::utf8::encode_utf8;

verus! {

/// The result of an operation on a bundle.
pub type BundleExecutionResult<T> = Result<T, BundleExecutionError>;

/// The failure of one transaction of a bundle, which fails the bundle.
#[derive(Clone, Copy, Debug, PartialEq, Eq)]
pub enum LoadAndExecuteBundleError {
    TransactionError {
        /// The position of the transaction in the bundle.
        index: usize,
        execution_result: TransactionProcessingResult,
    },
}

/// The reasons for which a bundle is not executed.
#[derive(Clone, Copy, Debug, PartialEq, Eq)]
pub enum BundleExecutionError {
    BankProcessingTimeLimitReached,
    TransactionFailure(LoadAndExecuteBundleError),
}

/// A transaction whose form has been checked, by its signatures.
#[derive(Debug)]
pub struct SanitizedTransaction {
    pub signatures: Vec<[u8; 64]>,
}

/// Transactions to be executed as one, with their identifier.
#[derive(Debug)]
pub struct SanitizedBundle {
    pub transactions: Vec<SanitizedTransaction>,
    pub bundle_id: String,
}

/// The character of a number below 58. The alphabet holds the digits and letters but for
/// `0`, `I`, `O` and `l`.
pub open spec fn base58_char(digit: int) -> char {
    if digit < 9 {
        ('1' as int + digit) as char
    } else if digit < 17 {
        ('A' as int + digit - 9) as char
    } else if digit < 22 {
        ('J' as int + digit - 17) as char
    } else if digit < 33 {
        ('P' as int + digit - 22) as char
    } else if digit < 44 {
        ('a' as int + digit - 33) as char
    } else {
        ('m' as int + digit - 44) as char
    }
}

/// A number in base 58, the highest digit first, and nothing for zero.
pub open spec fn base58_digits(value: nat) -> Seq<char>
    decreases value,
{
    if value == 0 {
        Seq::empty()
    } else {
        base58_digits(value / 58).push(base58_char(value as int % 58))
    }
}

/// The number that the bytes stand for, the highest byte first.
pub open spec fn big_endian(bytes: Seq<u8>) -> nat
    decreases bytes.len(),
{
    if bytes.len() == 0 {
        0
    } else {
        256 * big_endian(bytes.drop_last()) + bytes.last() as nat
    }
}

/// How many zero bytes come before any other.
pub open spec fn leading_zeros(bytes: Seq<u8>) -> nat
    decreases bytes.len(),
{
    if bytes.len() == 0 || bytes[0] != 0 {
        0
    } else {
        1 + leading_zeros(bytes.drop_first())
    }
}

/// The text of a signature: its bytes in base 58, which is a `1` for each leading zero byte
/// and then the digits of the number that the bytes stand for.
pub open spec fn signature_text(signature: Seq<u8>) -> Seq<char> {
    Seq::new(leading_zeros(signature), |i: int| '1') + base58_digits(big_endian(signature))
}

/// The SHA-256 digest of a byte string.
pub uninterp spec fn sha256_digest(data: Seq<u8>) -> Seq<u8>;

/// The parts one after another, with the separator between any two of them.
pub open spec fn joined(parts: Seq<Seq<char>>, separator: Seq<char>) -> Seq<char>
    decreases parts.len(),
{
    if parts.len() == 0 {
        Seq::empty()
    } else if parts.len() == 1 {
        parts[0]
    } else {
        joined(parts.drop_last(), separator) + separator + parts.last()
    }
}

/// The lowercase hexadecimal digit of a number below 16.
pub open spec fn hex_digit(value: int) -> char {
    if value < 10 {
        ('0' as int + value) as char
    } else {
        ('a' as int + value - 10) as char
    }
}

/// The bytes in hexadecimal, two digits for each, the higher one first.
pub open spec fn hex_text(bytes: Seq<u8>) -> Seq<char> {
    Seq::new(
        2 * bytes.len(),
        |i: int|
            hex_digit(
                if i % 2 == 0 {
                    bytes[i / 2] as int / 16
                } else {
                    bytes[i / 2] as int % 16
                },
            ),
    )
}

/// The texts of the transactions' first signatures, in order.
pub open spec fn signature_texts(transactions: Seq<SanitizedTransaction>) -> Seq<Seq<char>> {
    transactions.map_values(|tx: SanitizedTransaction| signature_text(tx.signatures@[0]@))
}

/// The identifier derived from the texts of signatures: the digest of the texts, joined by
/// commas, in hexadecimal.
pub open spec fn id_of_texts(texts: Seq<Seq<char>>) -> Seq<char> {
    hex_text(sha256_digest(encode_utf8(joined(texts, seq![',']))))
}

/// The identifier of the bundle made of the given transactions.
pub open spec fn bundle_id(transactions: Seq<SanitizedTransaction>) -> Seq<char> {
    id_of_texts(signature_texts(transactions))
}

impl vstd::std_specs::convert::FromSpecImpl<LoadAndExecuteBundleError> for BundleExecutionError {
    open spec fn obeys_from_spec() -> bool {
        true
    }

    open spec fn from_spec(err: LoadAndExecuteBundleError) -> Self {
        BundleExecutionError::TransactionFailure(err)
    }
}

impl From<LoadAndExecuteBundleError> for BundleExecutionError {
    fn from(err: LoadAndExecuteBundleError) -> (result: Self) {
        BundleExecutionError::TransactionFailure(err)
    }
}

impl BundleExecutionError {
    /// The message for this error. `cause` is the message for the failure of the
    /// transaction, where that is the reason.
    pub fn message(&self, cause: &str) -> (text: String)
        ensures
            text@ == match self {
                BundleExecutionError::BankProcessingTimeLimitReached =>
                    "The bank has hit the max allotted time for processing transactions"@,
                BundleExecutionError::TransactionFailure(_) =>
                    "Runtime error while executing the bundle: "@ + cause@,
            },
    {
        match self {
            BundleExecutionError::BankProcessingTimeLimitReached =>
                "The bank has hit the max allotted time for processing transactions".to_owned(),
            BundleExecutionError::TransactionFailure(_) => {
                "Runtime error while executing the bundle: ".to_owned().concat(cause)
            },
        }
    }
}

impl SanitizedTransaction {
    /// A transaction whose form has been checked carries a signature.
    pub open spec fn well_formed(self) -> bool {
        self.signatures@.len() > 0
    }

    /// The first signature, by which a transaction is known.
    pub fn signature(&self) -> (signature: &[u8; 64])
        requires
            self.well_formed(),
        ensures
            *signature == self.signatures@[0],
    {
        &self.signatures[0]
    }
}

/// Calls `solana_sdk`'s `Display` for `Signature`, which writes the 64 bytes in base 58, with
/// leading zero bytes kept.
#[verifier::external_body]
fn signature_to_string(signature: &[u8; 64]) -> (text: String)
    ensures
        text@ == signature_text(signature@),
{
    Signature::from(*signature).to_string()
}

/// Calls `itertools::Itertools::join`, which writes the parts one after another with the
/// separator between any two, and nothing for no parts. The separator takes one byte, so
/// that the room set aside for the separators can be computed without overflow.
#[verifier::external_body]
fn join(parts: &Vec<String>, separator: &str) -> (text: String)
    requires
        encode_utf8(separator@).len() == 1,
    ensures
        text@ == joined(parts@.map_values(|part: String| part@), separator@),
{
    parts.iter().join(separator)
}

/// Calls `sha2::Sha256` on the whole of the data. The digest is a function of the data;
/// what it is, is left to that crate.
#[verifier::external_body]
fn sha256(data: &[u8]) -> (digest: [u8; 32])
    ensures
        digest@ == sha256_digest(data@),
{
    let mut hasher = Sha256::new();
    hasher.update(data);
    hasher.finalize().into()
}

fn hex_digit_text(value: u8) -> (text: &'static str)
    requires
        value < 16,
    ensures
        text@ == seq![hex_digit(value as int)],
{
    match value {
        0 => {
            proof {
                reveal_strlit("0");
            }
            "0"
        },
        1 => {
            proof {
                reveal_strlit("1");
            }
            "1"
        },
        2 => {
            proof {
                reveal_strlit("2");
            }
            "2"
        },
        3 => {
            proof {
                reveal_strlit("3");
            }
            "3"
        },
        4 => {
            proof {
                reveal_strlit("4");
            }
            "4"
        },
        5 => {
            proof {
                reveal_strlit("5");
            }
            "5"
        },
        6 => {
            proof {
                reveal_strlit("6");
            }
            "6"
        },
        7 => {
            proof {
                reveal_strlit("7");
            }
            "7"
        },
        8 => {
            proof {
                reveal_strlit("8");
            }
            "8"
        },
        9 => {
            proof {
                reveal_strlit("9");
            }
            "9"
        },
        10 => {
            proof {
                reveal_strlit("a");
            }
            "a"
        },
        11 => {
            proof {
                reveal_strlit("b");
            }
            "b"
        },
        12 => {
            proof {
                reveal_strlit("c");
            }
            "c"
        },
        13 => {
            proof {
                reveal_strlit("d");
            }
            "d"
        },
        14 => {
            proof {
                reveal_strlit("e");
            }
            "e"
        },
        _ => {
            proof {
                reveal_strlit("f");
            }
            "f"
        },
    }
}

/// The digest in lowercase hexadecimal.
pub fn digest_to_hex(digest: &[u8; 32]) -> (text: String)
    ensures
        text@ == hex_text(digest@),
        text@.len() == 64,
{
    let mut text = String::new();
    let mut i: usize = 0;
    while i < 32
        invariant
            i <= 32,
            text@ == hex_text(digest@.take(i as int)),
        decreases 32 - i,
    {
        let byte: u8 = digest[i];
        text.append(hex_digit_text(byte / 16));
        text.append(hex_digit_text(byte % 16));
        i = i + 1;
        assert(text@ =~= hex_text(digest@.take(i as int)));
    }
    assert(digest@.take(32) =~= digest@);
    text
}

/// Derives an identifier from the texts of signatures.
pub fn id_from_signature_texts(texts: &Vec<String>) -> (id: String)
    ensures
        id@ == id_of_texts(texts@.map_values(|text: String| text@)),
        id@.len() == 64,
{
    proof {
        reveal_strlit(",");
        assert(","@ =~= seq![',']);
        vstd::utf8::is_ascii_chars_encode_utf8(","@);
    }
    let text = join(texts, ",");
    digest_to_hex(&sha256(text.as_str().as_bytes()))
}

/// Derives the identifier of a bundle from the signatures of its transactions.
pub fn derive_bundle_id_from_sanitized_transactions(
    transactions: &[SanitizedTransaction],
) -> (id: String)
    requires
        forall|i: int| 0 <= i < transactions@.len() ==> (#[trigger] transactions@[i]).well_formed(),
    ensures
        id@ == bundle_id(transactions@),
        id@.len() == 64,
{
    let mut texts: Vec<String> = Vec::new();
    let mut i: usize = 0;
    while i < transactions.len()
        invariant
            i <= transactions@.len(),
            forall|j: int|
                0 <= j < transactions@.len() ==> (#[trigger] transactions@[j]).well_formed(),
            texts@.len() == i,
            forall|j: int|
                0 <= j < i ==> (#[trigger] texts@[j])@ == signature_text(
                    transactions@[j].signatures@[0]@,
                ),
        decreases transactions@.len() - i,
    {
        texts.push(signature_to_string(transactions[i].signature()));
        i = i + 1;
    }
    assert(texts@.map_values(|text: String| text@) =~= signature_texts(transactions@));
    id_from_signature_texts(&texts)
}

/// The identifier of a bundle depends on nothing but the first signatures of its
/// transactions and their order.
pub proof fn law_bundle_id_depends_on_signatures(
    transactions: Seq<SanitizedTransaction>,
    others: Seq<SanitizedTransaction>,
)
    requires
        transactions.len() == others.len(),
        forall|i: int|
            0 <= i < transactions.len() ==> (#[trigger] transactions[i]).signatures@[0]
                == others[i].signatures@[0],
    ensures
        bundle_id(transactions) == bundle_id(others),
{
    assert(signature_texts(transactions) =~= signature_texts(others));
}

/// The number below 58 that a character stands for.
spec fn base58_value(c: char) -> int {
    let code = c as int;
    if code < 'A' as int {
        code - '1' as int
    } else if code < 'J' as int {
        code - 'A' as int + 9
    } else if code < 'P' as int {
        code - 'J' as int + 17
    } else if code < 'a' as int {
        code - 'P' as int + 22
    } else if code < 'm' as int {
        code - 'a' as int + 33
    } else {
        code - 'm' as int + 44
    }
}

/// The number that a text in base 58 stands for.
spec fn base58_number(text: Seq<char>) -> int
    decreases text.len(),
{
    if text.len() == 0 {
        0
    } else {
        58 * base58_number(text.drop_last()) + base58_value(text.last())
    }
}

/// A number is read back from its digits, whatever number of `1` stands before them.
proof fn lemma_base58_round_trip(ones: nat, value: nat)
    ensures
        base58_number(Seq::new(ones, |i: int| '1') + base58_digits(value)) == value,
    decreases value, ones,
{
    let padding = Seq::new(ones, |i: int| '1');
    let text = padding + base58_digits(value);
    if value > 0 {
        lemma_base58_round_trip(ones, value / 58);
        assert(text.drop_last() =~= padding + base58_digits(value / 58));
        assert(text.last() == base58_char(value as int % 58));
        assert(base58_value(base58_char(value as int % 58)) == value as int % 58);
    } else if ones > 0 {
        lemma_base58_round_trip((ones - 1) as nat, 0);
        assert(text.drop_last() =~= Seq::new((ones - 1) as nat, |i: int| '1') + base58_digits(0));
        assert(text.last() == '1');
    } else {
        assert(text =~= Seq::empty());
    }
}

/// As many bytes stand for one number in one way only.
proof fn lemma_big_endian_is_faithful(first: Seq<u8>, second: Seq<u8>)
    requires
        first.len() == second.len(),
        big_endian(first) == big_endian(second),
    ensures
        first == second,
    decreases first.len(),
{
    if first.len() > 0 {
        assert(first.last() == second.last());
        lemma_big_endian_is_faithful(first.drop_last(), second.drop_last());
        assert(first =~= first.drop_last().push(first.last()));
        assert(second =~= second.drop_last().push(second.last()));
    }
    assert(first =~= second);
}

/// Different signatures have different texts.
pub proof fn law_signature_text_is_faithful(first: Seq<u8>, second: Seq<u8>)
    requires
        first.len() == second.len(),
    ensures
        signature_text(first) == signature_text(second) <==> first == second,
{
    if signature_text(first) == signature_text(second) {
        lemma_base58_round_trip(leading_zeros(first), big_endian(first));
        lemma_base58_round_trip(leading_zeros(second), big_endian(second));
        lemma_big_endian_is_faithful(first, second);
    }
}

/// Whether a text can be told from what follows it: it is not empty and holds no comma.
spec fn separable(text: Seq<char>) -> bool {
    text.len() > 0 && !text.contains(',')
}

proof fn lemma_base58_digits_are_separable(value: nat)
    ensures
        !base58_digits(value).contains(','),
        value > 0 ==> base58_digits(value).len() > 0,
    decreases value,
{
    if value > 0 {
        lemma_base58_digits_are_separable(value / 58);
        let rest = base58_digits(value / 58);
        let digits = base58_digits(value);
        assert forall|i: int| 0 <= i < digits.len() implies digits[i] != ',' by {
            if i < rest.len() {
                assert(digits[i] == rest[i]);
                assert(rest.contains(rest[i]));
            }
        }
    }
}

/// The text of a signature is not empty and holds no comma.
proof fn lemma_signature_text_is_separable(signature: Seq<u8>)
    requires
        signature.len() > 0,
    ensures
        separable(signature_text(signature)),
{
    let text = signature_text(signature);
    let ones = leading_zeros(signature);
    let digits = base58_digits(big_endian(signature));
    lemma_base58_digits_are_separable(big_endian(signature));
    assert forall|i: int| 0 <= i < text.len() implies text[i] != ',' by {
        if i >= ones {
            assert(text[i] == digits[i - ones]);
            assert(digits.contains(digits[i - ones]));
        }
    }
    if signature[0] != 0 {
        lemma_big_endian_is_positive(signature);
    }
}

proof fn lemma_big_endian_is_positive(bytes: Seq<u8>)
    requires
        bytes.len() > 0,
        bytes[0] != 0,
    ensures
        big_endian(bytes) > 0,
    decreases bytes.len(),
{
    if bytes.len() > 1 {
        lemma_big_endian_is_positive(bytes.drop_last());
    }
}

/// Texts without commas are found again in what they are joined to by commas.
proof fn lemma_joined_is_faithful(first: Seq<Seq<char>>, second: Seq<Seq<char>>)
    requires
        forall|i: int| 0 <= i < first.len() ==> separable(#[trigger] first[i]),
        forall|i: int| 0 <= i < second.len() ==> separable(#[trigger] second[i]),
        joined(first, seq![',']) == joined(second, seq![',']),
    ensures
        first == second,
    decreases first.len(),
{
    let comma = seq![','];
    let text = joined(first, comma);
    if first.len() == 0 || second.len() == 0 {
        if first.len() > 0 {
            assert(separable(first.last()));
        }
        if second.len() > 0 {
            assert(separable(second.last()));
        }
    } else {
        let a = first.last();
        let b = second.last();
        assert(separable(first[first.len() - 1]) && separable(second[second.len() - 1]));
        assert forall|i: int| 0 <= i < a.len() implies a[i] != ',' && text[text.len() - a.len() + i]
            == a[i] by {
            assert(a.contains(a[i]));
        }
        assert forall|i: int| 0 <= i < b.len() implies b[i] != ',' && text[text.len() - b.len() + i]
            == b[i] by {
            assert(b.contains(b[i]));
        }
        if first.len() > 1 {
            assert(text[text.len() - a.len() - 1] == ',');
            if a.len() < b.len() {
                assert(b[b.len() - a.len() - 1] != ',');
            }
        }
        if second.len() > 1 {
            assert(text[text.len() - b.len() - 1] == ',');
            if b.len() < a.len() {
                assert(a[a.len() - b.len() - 1] != ',');
            }
        }
        assert(a =~= b);
        if first.len() > 1 {
            assert(joined(first.drop_last(), comma) =~= text.take(text.len() - a.len() - 1));
            assert(joined(second.drop_last(), comma) =~= text.take(text.len() - a.len() - 1));
            lemma_joined_is_faithful(first.drop_last(), second.drop_last());
        } else {
            assert(first.drop_last() =~= second.drop_last());
        }
        assert(first =~= first.drop_last().push(a));
        assert(second =~= second.drop_last().push(b));
    }
    assert(first =~= second);
}

/// What is digested for a bundle tells its transactions apart: it is the same for two bundles
/// exactly when they have the same first signatures in the same order.
pub proof fn law_digested_text_tells_signatures(
    transactions: Seq<SanitizedTransaction>,
    others: Seq<SanitizedTransaction>,
)
    requires
        forall|i: int| 0 <= i < transactions.len() ==> (#[trigger] transactions[i]).well_formed(),
        forall|i: int| 0 <= i < others.len() ==> (#[trigger] others[i]).well_formed(),
    ensures
        joined(signature_texts(transactions), seq![',']) == joined(
            signature_texts(others),
            seq![','],
        ) <==> (transactions.len() == others.len() && forall|i: int|
            0 <= i < transactions.len() ==> (#[trigger] transactions[i]).signatures@[0]@
                == others[i].signatures@[0]@),
{
    let texts = signature_texts(transactions);
    let other_texts = signature_texts(others);
    if joined(texts, seq![',']) == joined(other_texts, seq![',']) {
        assert forall|i: int| 0 <= i < texts.len() implies separable(#[trigger] texts[i]) by {
            lemma_signature_text_is_separable(transactions[i].signatures@[0]@);
        }
        assert forall|i: int| 0 <= i < other_texts.len() implies separable(
            #[trigger] other_texts[i],
        ) by {
            lemma_signature_text_is_separable(others[i].signatures@[0]@);
        }
        lemma_joined_is_faithful(texts, other_texts);
        assert forall|i: int| 0 <= i < transactions.len() implies (
        #[trigger] transactions[i]).signatures@[0]@ == others[i].signatures@[0]@ by {
            assert(texts[i] == other_texts[i]);
            law_signature_text_is_faithful(
                transactions[i].signatures@[0]@,
                others[i].signatures@[0]@,
            );
        }
    } else if transactions.len() == others.len() {
        if forall|i: int|
            0 <= i < transactions.len() ==> (#[trigger] transactions[i]).signatures@[0]@
                == others[i].signatures@[0]@ {
            assert(texts =~= other_texts);
        }
    }
}

/// Hexadecimal keeps the digest: different digests have different identifiers.
pub proof fn law_hex_is_faithful(first: Seq<u8>, second: Seq<u8>)
    ensures
        hex_text(first) == hex_text(second) <==> first == second,
{
    if hex_text(first) == hex_text(second) {
        assert(hex_text(first).len() == 2 * first.len());
        assert(hex_text(second).len() == 2 * second.len());
        assert forall|i: int| 0 <= i < first.len() implies first[i] == second[i] by {
            assert(hex_text(first)[2 * i] == hex_text(second)[2 * i]);
            assert(hex_text(first)[2 * i + 1] == hex_text(second)[2 * i + 1]);
        }
        assert(first =~= second);
    }
}

/// In hexadecimal every byte is read back from its two digits, the first of which counts
/// sixteenfold, and all digits are decimal digits or lowercase letters up to `f`.
pub proof fn law_bytes_are_read_back_from_hex(bytes: Seq<u8>, i: int)
    requires
        0 <= i < bytes.len(),
    ensures
        hex_text(bytes).len() == 2 * bytes.len(),
        ({
            let high = hex_text(bytes)[2 * i] as int;
            let low = hex_text(bytes)[2 * i + 1] as int;
            &&& '0' as int <= high <= '9' as int || 'a' as int <= high <= 'f' as int
            &&& '0' as int <= low <= '9' as int || 'a' as int <= low <= 'f' as int
            &&& bytes[i] == 16 * (if high <= '9' as int {
                high - '0' as int
            } else {
                high - 'a' as int + 10
            }) + (if low <= '9' as int {
                low - '0' as int
            } else {
                low - 'a' as int + 10
            })
        }),
{
    assert((2 * i) / 2 == i && (2 * i) % 2 == 0);
    assert((2 * i + 1) / 2 == i && (2 * i + 1) % 2 == 1);
}

/// A further part is joined after all the others, with one separator before it.
pub proof fn law_parts_are_joined_in_order(
    parts: Seq<Seq<char>>,
    part: Seq<char>,
    separator: Seq<char>,
)
    ensures
        joined(Seq::empty(), separator) == Seq::<char>::empty(),
        joined(seq![part], separator) == part,
        parts.len() > 0 ==> joined(parts.push(part), separator) == joined(parts, separator)
            + separator + part,
{
    assert(parts.push(part).drop_last() =~= parts);
}

/// The identifier of a bundle is the SHA-256 digest, in hexadecimal, of the texts of the first
/// signatures of all its transactions, in order and with a comma between any two.
pub proof fn law_id_digests_every_signature(
    transactions: Seq<SanitizedTransaction>,
    texts: Seq<Seq<char>>,
)
    requires
        texts.len() == transactions.len(),
        forall|i: int|
            0 <= i < texts.len() ==> #[trigger] texts[i] == signature_text(
                transactions[i].signatures@[0]@,
            ),
    ensures
        bundle_id(transactions) == hex_text(
            sha256_digest(encode_utf8(joined(texts, seq![',']))),
        ),
        id_of_texts(texts) == bundle_id(transactions),
{
    assert(signature_texts(transactions) =~= texts);
}

/// Two bundles with one identifier have the same first signatures, as many and in the same
/// order, unless the different texts that are digested for them have the same digest.
pub proof fn law_id_tells_signatures(
    transactions: Seq<SanitizedTransaction>,
    others: Seq<SanitizedTransaction>,
)
    requires
        forall|i: int| 0 <= i < transactions.len() ==> (#[trigger] transactions[i]).well_formed(),
        forall|i: int| 0 <= i < others.len() ==> (#[trigger] others[i]).well_formed(),
        bundle_id(transactions) == bundle_id(others),
    ensures
        ({
            let digested = encode_utf8(
                joined(
                    Seq::new(
                        transactions.len(),
                        |i: int| signature_text(transactions[i].signatures@[0]@),
                    ),
                    seq![','],
                ),
            );
            let other_digested = encode_utf8(
                joined(
                    Seq::new(
                        others.len(),
                        |i: int| signature_text(others[i].signatures@[0]@),
                    ),
                    seq![','],
                ),
            );
            &&& sha256_digest(digested) == sha256_digest(other_digested)
            &&& digested == other_digested ==> transactions.len() == others.len() && forall|i: int|
                0 <= i < transactions.len() ==> (#[trigger] transactions[i]).signatures@[0]@
                    == others[i].signatures@[0]@
        }),
{
    let texts = Seq::new(
        transactions.len(),
        |i: int| signature_text(transactions[i].signatures@[0]@),
    );
    let other_texts = Seq::new(
        others.len(),
        |i: int| signature_text(others[i].signatures@[0]@),
    );
    let text = joined(texts, seq![',']);
    let other_text = joined(other_texts, seq![',']);
    law_id_digests_every_signature(transactions, texts);
    law_id_digests_every_signature(others, other_texts);
    law_hex_is_faithful(
        sha256_digest(encode_utf8(text)),
        sha256_digest(encode_utf8(other_text)),
    );
    if encode_utf8(text) == encode_utf8(other_text) {
        vstd::utf8::encode_utf8_decode_utf8(text);
        vstd::utf8::encode_utf8_decode_utf8(other_text);
        assert(signature_texts(transactions) =~= texts);
        assert(signature_texts(others) =~= other_texts);
        law_digested_text_tells_signatures(transactions, others);
    }
}

} // verus!
