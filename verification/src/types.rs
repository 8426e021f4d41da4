//! The values that a user types and the daemon reports: space labels, amounts
//! in satoshi, fee rates and covenants, with the filters that guard the text
//! fields and the parsers that turn a field's text into a value.

use vstd::prelude::*;

verus! {

/// The longest label, in characters.
pub const MAX_LABEL_LEN: usize = 62;

/// The longest text that is read as an amount, in characters.
pub const MAX_AMOUNT_TEXT_LEN: usize = 50;

/// One virtual byte weighs four weight units, so a rate in satoshi per virtual
/// byte is a 250th of the rate in satoshi per thousand weight units.
pub const KWU_PER_VB: u64 = 250;

pub open spec fn is_digit(c: char) -> bool {
    '0' <= c && c <= '9'
}

pub open spec fn is_lower(c: char) -> bool {
    'a' <= c && c <= 'z'
}

/// Characters of a space label: `[0-9a-z-]`.
pub open spec fn is_slabel_char(c: char) -> bool {
    is_digit(c) || is_lower(c) || c == '-'
}

/// Characters of a recipient: those of a label, and `@`.
pub open spec fn is_recipient_char(c: char) -> bool {
    is_digit(c) || is_lower(c) || c == '-' || c == '@'
}

/// Characters of a fee rate: digits and the point.
pub open spec fn is_fee_rate_char(c: char) -> bool {
    is_digit(c) || c == '.'
}

pub open spec fn all_slabel_chars(s: Seq<char>) -> bool {
    forall|i: int| 0 <= i < s.len() ==> is_slabel_char(#[trigger] s[i])
}

pub open spec fn all_recipient_chars(s: Seq<char>) -> bool {
    forall|i: int| 0 <= i < s.len() ==> is_recipient_char(#[trigger] s[i])
}

pub open spec fn all_digits(s: Seq<char>) -> bool {
    forall|i: int| 0 <= i < s.len() ==> is_digit(#[trigger] s[i])
}

pub open spec fn all_fee_rate_chars(s: Seq<char>) -> bool {
    forall|i: int| 0 <= i < s.len() ==> is_fee_rate_char(#[trigger] s[i])
}

fn digit(c: char) -> (b: bool)
    ensures
        b == is_digit(c),
{
    c >= '0' && c <= '9'
}

fn lower(c: char) -> (b: bool)
    ensures
        b == is_lower(c),
{
    c >= 'a' && c <= 'z'
}

/// Whether a label field may hold `s`: every character is one of `[0-9a-z-]`.
pub fn is_slabel_input(s: &str) -> (ok: bool)
    ensures
        ok == all_slabel_chars(s@),
{
    let mut ok = true;
    for c in it: s.chars()
        invariant
            it.seq() == s@,
            ok == (forall|i: int| 0 <= i < it.index() ==> is_slabel_char(#[trigger] s@[i])),
    {
        ok = ok && (digit(c) || lower(c) || c == '-');
    }
    ok
}

/// Whether a recipient field may hold `s`: digits, lower-case letters, `-`
/// and `@`.
pub fn is_recipient_input(s: &str) -> (ok: bool)
    ensures
        ok == all_recipient_chars(s@),
{
    let mut ok = true;
    for c in it: s.chars()
        invariant
            it.seq() == s@,
            ok == (forall|i: int| 0 <= i < it.index() ==> is_recipient_char(#[trigger] s@[i])),
    {
        ok = ok && (digit(c) || lower(c) || c == '-' || c == '@');
    }
    ok
}

/// Whether an amount field may hold `s`: digits only.
pub fn is_amount_input(s: &str) -> (ok: bool)
    ensures
        ok == all_digits(s@),
{
    let mut ok = true;
    for c in it: s.chars()
        invariant
            it.seq() == s@,
            ok == (forall|i: int| 0 <= i < it.index() ==> is_digit(#[trigger] s@[i])),
    {
        ok = ok && digit(c);
    }
    ok
}

/// Whether a fee-rate field may hold `s`: digits and the point.
pub fn is_fee_rate_input(s: &str) -> (ok: bool)
    ensures
        ok == all_fee_rate_chars(s@),
{
    let mut ok = true;
    for c in it: s.chars()
        invariant
            it.seq() == s@,
            ok == (forall|i: int| 0 <= i < it.index() ==> is_fee_rate_char(#[trigger] s@[i])),
    {
        ok = ok && (digit(c) || c == '.');
    }
    ok
}

/// The value of a decimal digit.
pub open spec fn digit_value(c: char) -> nat {
    if c == '1' {
        1
    } else if c == '2' {
        2
    } else if c == '3' {
        3
    } else if c == '4' {
        4
    } else if c == '5' {
        5
    } else if c == '6' {
        6
    } else if c == '7' {
        7
    } else if c == '8' {
        8
    } else if c == '9' {
        9
    } else {
        0
    }
}

/// The number that a run of decimal digits writes, leading zeros allowed.
pub open spec fn digits_value(s: Seq<char>) -> nat
    decreases s.len(),
{
    if s.len() == 0 {
        0
    } else {
        digits_value(s.drop_last()) * 10 + digit_value(s.last())
    }
}

/// What an unsigned decimal text stands for: an optional `+`, then at least
/// one digit and nothing else.
pub open spec fn unsigned_text_value(s: Seq<char>) -> Option<nat> {
    let body = if s.len() > 0 && s[0] == '+' {
        s.skip(1)
    } else {
        s
    };
    if body.len() > 0 && all_digits(body) {
        Some(digits_value(body))
    } else {
        None
    }
}

/// What `s` stands for as a `u64`: its value, where it is an unsigned decimal
/// text whose value fits.
pub open spec fn u64_of_text(s: Seq<char>) -> Option<u64> {
    match unsigned_text_value(s) {
        Some(v) => if v <= u64::MAX {
            Some(v as u64)
        } else {
            None
        },
        None => None,
    }
}

/// `str::parse::<u64>` of the standard library. Its documentation asks for an
/// optional `+` followed by digits only, and gives an error for the empty
/// text, for any other character and for a value beyond `u64::MAX`.
#[verifier::external_body]
fn parse_u64(s: &str) -> (r: Option<u64>)
    ensures
        r == u64_of_text(s@),
{
    s.parse::<u64>().ok()
}

/// The part of `s` before its first point; all of `s` where it has none.
pub open spec fn whole_part(s: Seq<char>) -> Seq<char>
    decreases s.len(),
{
    if s.len() == 0 || s[0] == '.' {
        Seq::empty()
    } else {
        seq![s[0]] + whole_part(s.drop_first())
    }
}

/// Whether `s` holds nothing but zeros behind position `point`.
pub open spec fn zeros_behind(s: Seq<char>, point: int) -> bool {
    forall|i: int| point < i < s.len() ==> #[trigger] s[i] == '0'
}

/// What `s` stands for as an amount in satoshi: a run of at least one digit,
/// after which a point followed by nothing but zeros may stand; at most
/// `MAX_AMOUNT_TEXT_LEN` characters in all; the digits' value, which must fit
/// a `u64`. No sign, no fraction of a satoshi.
pub open spec fn sat_of_text(s: Seq<char>) -> Option<u64> {
    let whole = whole_part(s);
    if 1 <= s.len() <= MAX_AMOUNT_TEXT_LEN && whole.len() >= 1 && all_digits(whole)
        && zeros_behind(s, whole.len() as int) && digits_value(whole) <= u64::MAX {
        Some(digits_value(whole) as u64)
    } else {
        None
    }
}

/// `Amount::from_str_in` of the `bitcoin` crate, as `spaces_wallet` hands it
/// on, with `Denomination::Satoshi`. It refuses a text that is empty or
/// longer than fifty bytes, that starts with `-`, in which anything but `0`
/// follows the first point or nothing stands before it, in which a character
/// before the point is no digit, or whose value overflows; of any other text
/// the digits before the point are the amount.
#[verifier::external_body]
fn parse_sat(s: &str) -> (r: Option<u64>)
    ensures
        r == sat_of_text(s@),
{
    let denomination = spaces_wallet::bitcoin::Denomination::Satoshi;
    match spaces_wallet::bitcoin::Amount::from_str_in(s, denomination) {
        Ok(amount) => Some(amount.to_sat()),
        Err(_) => None,
    }
}

/// `FeeRate::from_sat_per_vb` of the `bitcoin` crate, as `spaces_wallet` hands
/// it on, which multiplies by 250 and gives nothing on overflow; the rate
/// comes back in satoshi per thousand weight units, as `to_sat_per_kwu` reads
/// it.
#[verifier::external_body]
fn sat_per_kwu_of_vb(sat_vb: u64) -> (r: Option<u64>)
    ensures
        r == (if sat_vb * KWU_PER_VB <= u64::MAX {
            Some((sat_vb * KWU_PER_VB) as u64)
        } else {
            None
        }),
{
    match spaces_wallet::bitcoin::FeeRate::from_sat_per_vb(sat_vb) {
        Some(rate) => Some(rate.to_sat_per_kwu()),
        None => None,
    }
}

/// `Amount::to_string_with_denomination` of the `bitcoin` crate, as
/// `spaces_wallet` hands it on, with `Denomination::Satoshi`: the amount in
/// decimal, a blank and the word `satoshi`.
#[verifier::external_body]
fn sat_with_denomination(sat: u64) -> (s: String)
    ensures
        s@ == crate::text::decimal(sat as nat) + " satoshi"@,
{
    spaces_wallet::bitcoin::Amount::from_sat(sat).to_string_with_denomination(
        spaces_wallet::bitcoin::Denomination::Satoshi,
    )
}

/// An amount of money, in whole satoshi.
#[derive(Clone, Copy, Debug, PartialEq, Eq, Structural)]
pub struct Amount {
    pub sat: u64,
}

impl Amount {
    pub fn from_sat(sat: u64) -> (a: Amount)
        ensures
            a.sat == sat,
    {
        Amount { sat }
    }

    pub fn to_sat(self) -> (sat: u64)
        ensures
            sat == self.sat,
    {
        self.sat
    }

    /// The amount as a text with its unit, such as `5000 satoshi`.
    pub fn to_string_with_denomination(self) -> (s: String)
        ensures
            s@ == crate::text::decimal(self.sat as nat) + " satoshi"@,
    {
        sat_with_denomination(self.sat)
    }
}

/// A fee rate, in satoshi per thousand weight units.
#[derive(Clone, Copy, Debug, PartialEq, Eq, Structural)]
pub struct FeeRate {
    pub sat_per_kwu: u64,
}

/// The rate of `sat_vb` satoshi per virtual byte, where it can be held.
pub open spec fn fee_rate_of_vb(sat_vb: u64) -> Option<FeeRate> {
    if sat_vb * KWU_PER_VB <= u64::MAX {
        Some(FeeRate { sat_per_kwu: (sat_vb * KWU_PER_VB) as u64 })
    } else {
        None
    }
}

impl FeeRate {
    /// The rate of `sat_vb` satoshi per virtual byte; nothing where that is
    /// beyond what a rate can hold.
    pub fn from_sat_per_vb(sat_vb: u64) -> (r: Option<FeeRate>)
        ensures
            r == fee_rate_of_vb(sat_vb),
    {
        match sat_per_kwu_of_vb(sat_vb) {
            Some(sat_per_kwu) => Some(FeeRate { sat_per_kwu }),
            None => None,
        }
    }

    pub fn to_sat_per_kwu(self) -> (r: u64)
        ensures
            r == self.sat_per_kwu,
    {
        self.sat_per_kwu
    }
}

/// What is attached to a space on chain.
#[derive(Clone, Copy, Debug, PartialEq, Eq, Structural)]
pub enum Covenant {
    /// The name exists and cannot enter an auction.
    Reserved,
    /// Opened, bid for, or waiting to be claimed. `claim_height` is unset
    /// until a bid has fixed the height at which the auction ends.
    Bid { total_burned: Amount, claim_height: Option<u32> },
    /// Registered to an owner until `expire_height`.
    Transfer { expire_height: u32 },
}

/// A label body: it neither starts nor ends with a hyphen, holds no two
/// hyphens in a row, and nothing but `[0-9a-z-]`.
pub open spec fn well_hyphenated(v: Seq<char>) -> bool {
    &&& v.len() > 0
    &&& v.first() != '-'
    &&& v.last() != '-'
    &&& all_slabel_chars(v)
    &&& forall|i: int| 0 < i < v.len() ==> !(v[i - 1] == '-' && #[trigger] v[i] == '-')
}

/// Whether `s` starts with `xn--` and goes on after it.
pub open spec fn has_punycode_prefix(s: Seq<char>) -> bool {
    s.len() > 4 && s[0] == 'x' && s[1] == 'n' && s[2] == '-' && s[3] == '-'
}

/// A named label: a label body, before which `xn--` may stand.
pub open spec fn named_label(s: Seq<char>) -> bool {
    well_hyphenated(
        if has_punycode_prefix(s) {
            s.skip(4)
        } else {
            s
        },
    )
}

/// A numeric label: `#`, then three runs of digits, none of them empty,
/// parted by two hyphens.
pub open spec fn numeric_label(s: Seq<char>) -> bool {
    exists|i: int, j: int|
        #![trigger s[i], s[j]]
        {
            &&& 1 < i
            &&& i + 1 < j
            &&& j + 1 < s.len()
            &&& s[0] == '#'
            &&& s[i] == '-'
            &&& s[j] == '-'
            &&& forall|k: int| 1 <= k < s.len() && k != i && k != j ==> is_digit(#[trigger] s[k])
        }
}

/// The labels that the protocol accepts, written without the leading `@`: one
/// to `MAX_LABEL_LEN` characters that make up a numeric label where the first
/// is `#`, and a named label otherwise.
pub open spec fn label_grammar(s: Seq<char>) -> bool {
    &&& 1 <= s.len() <= MAX_LABEL_LEN
    &&& if s[0] == '#' {
        numeric_label(s)
    } else {
        named_label(s)
    }
}

/// Whether `s` is a label as the wallet holds one: a label that the protocol
/// accepts and that is made of `[0-9a-z-]` only, which leaves the numeric
/// labels out.
pub open spec fn is_space_label(s: Seq<char>) -> bool {
    all_slabel_chars(s) && label_grammar(s)
}

/// `spaces_protocol::slabel::SLabel::from_str_unprefixed`, and
/// `to_string_unprefixed` on what it accepted. It accepts a label of one to
/// 62 bytes that, after `#`, reads digits, a hyphen, digits, a hyphen and
/// digits, or that otherwise, with a leading `xn--` that something follows set
/// aside, holds `[0-9a-z-]` only, with no hyphen first, last or twice in a
/// row. An accepted label is handed back as it was given.
#[verifier::external_body]
fn parse_unprefixed(s: &str) -> (r: Option<String>)
    ensures
        r is Some <==> label_grammar(s@),
        r matches Some(text) ==> text@ == s@,
{
    match spaces_protocol::slabel::SLabel::from_str_unprefixed(s) {
        Ok(label) => label.to_string_unprefixed().ok(),
        Err(_) => None,
    }
}

/// A label holds ASCII characters only.
pub proof fn lemma_label_is_ascii(s: Seq<char>)
    requires
        label_grammar(s),
    ensures
        vstd::utf8::is_ascii_chars(s),
{
    if s[0] == '#' {
        let (i, j) = choose|i: int, j: int|
            #![trigger s[i], s[j]]
            {
                &&& 1 < i
                &&& i + 1 < j
                &&& j + 1 < s.len()
                &&& s[0] == '#'
                &&& s[i] == '-'
                &&& s[j] == '-'
                &&& forall|k: int|
                    1 <= k < s.len() && k != i && k != j ==> is_digit(#[trigger] s[k])
            };
        assert forall|k: int| 0 <= k < s.len() implies '\0' <= #[trigger] s[k] <= '\u{7f}' by {
            if k != 0 && k != i && k != j {
                assert(is_digit(s[k]));
            }
        }
    } else if has_punycode_prefix(s) {
        let body = s.skip(4);
        assert forall|k: int| 0 <= k < s.len() implies '\0' <= #[trigger] s[k] <= '\u{7f}' by {
            if k >= 4 {
                assert(is_slabel_char(body[k - 4]));
            }
        }
    } else {
        assert forall|k: int| 0 <= k < s.len() implies '\0' <= #[trigger] s[k] <= '\u{7f}' by {
            assert(is_slabel_char(s[k]));
        }
    }
}

/// The handle of a space: a label that the protocol accepts, held without the
/// leading `@`.
#[derive(Debug, PartialEq, Eq)]
pub struct SLabel {
    text: String,
}

impl View for SLabel {
    type V = Seq<char>;

    closed spec fn view(&self) -> Seq<char> {
        self.text@
    }
}

/// A label as it is shown and sent: behind `@`.
pub open spec fn prefixed(label: Seq<char>) -> Seq<char> {
    seq!['@'] + label
}

impl SLabel {
    #[verifier::type_invariant]
    spec fn well_formed(self) -> bool {
        is_space_label(self.text@)
    }

    /// The label without `@`.
    pub fn as_str(&self) -> (s: &str)
        ensures
            s@ == self@,
            is_space_label(s@),
    {
        proof {
            use_type_invariant(self);
        }
        self.text.as_str()
    }

    /// The label without `@`, as an owned text.
    pub fn to_string_unprefixed(&self) -> (s: String)
        ensures
            s@ == self@,
    {
        self.text.clone()
    }

    /// The label as it is shown: behind `@`.
    pub fn to_string(&self) -> (s: String)
        ensures
            s@ == prefixed(self@),
    {
        let mut s = String::from_str("@");
        s.append(self.text.as_str());
        proof {
            reveal_strlit("@");
            assert(s@ =~= prefixed(self@));
        }
        s
    }
}

impl Clone for SLabel {
    fn clone(&self) -> (r: Self)
        ensures
            r@ == self@,
    {
        proof {
            use_type_invariant(self);
        }
        SLabel { text: self.text.clone() }
    }
}

/// The order of labels: that of their characters, one by one. The first
/// character in which two labels differ decides; a label that another one
/// starts with comes before it.
pub open spec fn label_le(a: Seq<char>, b: Seq<char>) -> bool
    decreases a.len(),
{
    if a.len() == 0 {
        true
    } else if b.len() == 0 {
        false
    } else if a[0] == b[0] {
        label_le(a.drop_first(), b.drop_first())
    } else {
        a[0] < b[0]
    }
}

/// Of two labels one comes first, or they are in order either way.
pub proof fn lemma_label_le_total(a: Seq<char>, b: Seq<char>)
    ensures
        label_le(a, b) || label_le(b, a),
    decreases a.len(),
{
    if a.len() > 0 && b.len() > 0 && a[0] == b[0] {
        lemma_label_le_total(a.drop_first(), b.drop_first());
    }
}

/// The order of labels is transitive.
pub proof fn lemma_label_le_transitive(a: Seq<char>, b: Seq<char>, c: Seq<char>)
    requires
        label_le(a, b),
        label_le(b, c),
    ensures
        label_le(a, c),
    decreases a.len(),
{
    if a.len() > 0 && b.len() > 0 && c.len() > 0 && a[0] == b[0] && b[0] == c[0] {
        lemma_label_le_transitive(a.drop_first(), b.drop_first(), c.drop_first());
    }
}

/// Two labels that are in order either way are the same label.
pub proof fn lemma_label_le_antisymmetric(a: Seq<char>, b: Seq<char>)
    requires
        label_le(a, b),
        label_le(b, a),
    ensures
        a == b,
    decreases a.len(),
{
    if a.len() > 0 {
        lemma_label_le_antisymmetric(a.drop_first(), b.drop_first());
        assert(a =~= seq![a[0]] + a.drop_first());
        assert(b =~= seq![b[0]] + b.drop_first());
    } else {
        assert(a =~= b);
    }
}

impl SLabel {
    /// Whether this label comes before `other` in the order of labels, or is
    /// the same.
    pub fn is_le(&self, other: &SLabel) -> (le: bool)
        ensures
            le == label_le(self@, other@),
    {
        let a = self.text.as_str();
        let b = other.text.as_str();
        let n = a.unicode_len();
        let m = b.unicode_len();
        let mut i: usize = 0;
        proof {
            assert(a@.skip(0) =~= a@);
            assert(b@.skip(0) =~= b@);
        }
        while i < n && i < m
            invariant
                i <= n,
                i <= m,
                n == a@.len(),
                m == b@.len(),
                a@ == self@,
                b@ == other@,
                label_le(a@, b@) == label_le(a@.skip(i as int), b@.skip(i as int)),
            decreases n - i,
        {
            let x = a.get_char(i);
            let y = b.get_char(i);
            proof {
                assert(a@.skip(i as int).drop_first() =~= a@.skip(i + 1));
                assert(b@.skip(i as int).drop_first() =~= b@.skip(i + 1));
                assert(a@.skip(i as int)[0] == x);
                assert(b@.skip(i as int)[0] == y);
            }
            if x != y {
                return x < y;
            }
            i += 1;
        }
        i == n
    }
}

/// Every named label can be typed into a label field: the field's filter
/// lets it pass.
pub proof fn lemma_named_label_passes_filter(s: Seq<char>)
    requires
        label_grammar(s),
        s[0] != '#',
    ensures
        all_slabel_chars(s),
{
    if has_punycode_prefix(s) {
        let body = s.skip(4);
        assert forall|k: int| 0 <= k < s.len() implies is_slabel_char(#[trigger] s[k]) by {
            if k >= 4 {
                assert(is_slabel_char(body[k - 4]));
            }
        }
    }
}

/// Reads a label written without `@`. A text that holds anything but
/// `[0-9a-z-]` is no label, whatever else it may name.
pub fn slabel_from_str(s: &str) -> (r: Option<SLabel>)
    ensures
        r is Some <==> is_space_label(s@),
        r matches Some(label) ==> label@ == s@,
{
    if !is_slabel_input(s) {
        return None;
    }
    match parse_unprefixed(s) {
        Some(text) => Some(SLabel { text }),
        None => None,
    }
}

/// A label is not empty, holds at most `MAX_LABEL_LEN` characters, all of
/// them from `[0-9a-z-]`, and neither starts nor ends with a hyphen.
pub proof fn lemma_label_shape(s: Seq<char>)
    requires
        is_space_label(s),
    ensures
        1 <= s.len() <= MAX_LABEL_LEN,
        all_slabel_chars(s),
        s.first() != '-',
        s.last() != '-',
        s.first() != '#',
{
    assert(is_slabel_char(s[0]));
    if has_punycode_prefix(s) {
        let body = s.skip(4);
        assert(body.last() == s.last());
    }
}

/// Reads a recipient: any text but the empty one.
pub fn recipient_from_str(s: &str) -> (r: Option<String>)
    ensures
        r is Some <==> s@.len() > 0,
        r matches Some(text) ==> text@ == s@,
{
    if s.is_empty() {
        None
    } else {
        Some(String::from_str(s))
    }
}

/// What a text stands for as an amount: the value of its digits, where it
/// holds digits only, at least one and at most `MAX_AMOUNT_TEXT_LEN`, and the
/// value fits a `u64`. A text with a sign, a point or anything else that the
/// amount field would not take is no amount.
pub open spec fn amount_of_text(s: Seq<char>) -> Option<Amount> {
    if all_digits(s) && 1 <= s.len() <= MAX_AMOUNT_TEXT_LEN && digits_value(s) <= u64::MAX {
        Some(Amount { sat: digits_value(s) as u64 })
    } else {
        None
    }
}

/// A text without a point is its own whole part.
pub proof fn lemma_whole_part_of_digits(s: Seq<char>)
    requires
        all_digits(s),
    ensures
        whole_part(s) == s,
    decreases s.len(),
{
    if s.len() > 0 {
        assert(is_digit(s[0]));
        let rest = s.drop_first();
        assert forall|i: int| 0 <= i < rest.len() implies is_digit(#[trigger] rest[i]) by {
            assert(rest[i] == s[i + 1]);
        }
        lemma_whole_part_of_digits(rest);
        assert(seq![s[0]] + rest =~= s);
    } else {
        assert(whole_part(s) =~= s);
    }
}

/// An amount is read as it is written: a text of digits stands for the same
/// number of satoshi here and in the `bitcoin` crate's reading.
pub proof fn lemma_amount_is_read_as_written(s: Seq<char>)
    requires
        all_digits(s),
    ensures
        amount_of_text(s) is Some <==> sat_of_text(s) is Some,
        amount_of_text(s) matches Some(amount) ==> sat_of_text(s) == Some(amount.sat),
{
    lemma_whole_part_of_digits(s);
}

/// The decimal digits of a number write that number.
pub proof fn lemma_decimal_round_trip(n: nat)
    ensures
        all_digits(crate::text::decimal(n)),
        digits_value(crate::text::decimal(n)) == n,
    decreases n,
{
    let d = crate::text::decimal(n);
    if n < 10 {
        assert(d.drop_last() =~= Seq::<char>::empty());
        reveal_with_fuel(digits_value, 2);
    } else {
        lemma_decimal_round_trip(n / 10);
        let shorter = crate::text::decimal(n / 10);
        assert(d.drop_last() =~= shorter);
        assert(d.last() == crate::text::digit_char((n % 10) as int));
        assert forall|i: int| 0 <= i < d.len() implies is_digit(#[trigger] d[i]) by {
            if i < shorter.len() {
                assert(d[i] == shorter[i]);
            }
        }
    }
}

/// Reads an amount in whole satoshi.
pub fn amount_from_str(s: &str) -> (r: Option<Amount>)
    ensures
        r == amount_of_text(s@),
{
    if !is_amount_input(s) {
        return None;
    }
    proof {
        lemma_whole_part_of_digits(s@);
    }
    match parse_sat(s) {
        Some(sat) => Some(Amount { sat }),
        None => None,
    }
}

/// What a text stands for as a fee rate. The empty text, and it alone, is
/// valid and leaves the rate to be chosen automatically. Any other text must
/// hold digits only, and stands for that many satoshi per virtual byte where a
/// rate can hold them; it is invalid otherwise.
pub open spec fn fee_rate_of_text(s: Seq<char>) -> Option<Option<FeeRate>> {
    if s.len() == 0 {
        Some(None)
    } else if all_digits(s) && digits_value(s) * KWU_PER_VB <= u64::MAX {
        Some(Some(FeeRate { sat_per_kwu: (digits_value(s) * KWU_PER_VB) as u64 }))
    } else {
        None
    }
}

/// Only the empty text leaves the fee rate open.
pub proof fn lemma_only_empty_leaves_rate_open(s: Seq<char>)
    ensures
        fee_rate_of_text(s) == Some(None::<FeeRate>) <==> s.len() == 0,
{
}

/// Reads a fee rate in satoshi per virtual byte.
pub fn fee_rate_from_str(s: &str) -> (r: Option<Option<FeeRate>>)
    ensures
        r == fee_rate_of_text(s@),
{
    if s.is_empty() {
        return Some(None);
    }
    if !is_fee_rate_input(s) {
        return None;
    }
    proof {
        assert(is_fee_rate_char(s@[0]));
        if all_digits(s@) {
            assert(unsigned_text_value(s@) == Some(digits_value(s@)));
        } else {
            assert(unsigned_text_value(s@) is None);
        }
    }
    match parse_u64(s) {
        Some(sat_vb) => match FeeRate::from_sat_per_vb(sat_vb) {
            Some(rate) => Some(Some(rate)),
            None => None,
        },
        None => None,
    }
}

} // verus!
