//! Bluetooth device addresses and the textual form they take inside
//! bus object paths.
//!
//! Inside an object path an address is written as six hexadecimal
//! octet pairs joined by underscores, for example `AA_BB_CC_DD_EE_FF`.

use vstd::prelude::*;

verus! {

/// A 48-bit Bluetooth device address.
#[derive(Clone, Copy, Debug)]
pub struct Address {
    /// The six octets of the address, most significant first.
    pub octets: [u8; 6],
}

impl View for Address {
    type V = Seq<u8>;

    open spec fn view(&self) -> Seq<u8> {
        self.octets@
    }
}

impl PartialEq for Address {
    fn eq(&self, o: &Address) -> (r: bool) {
        self.octets[0] == o.octets[0] && self.octets[1] == o.octets[1] && self.octets[2]
            == o.octets[2] && self.octets[3] == o.octets[3] && self.octets[4] == o.octets[4]
            && self.octets[5] == o.octets[5]
    }
}

impl vstd::std_specs::cmp::PartialEqSpecImpl for Address {
    open spec fn obeys_eq_spec() -> bool {
        true
    }

    open spec fn eq_spec(&self, o: &Address) -> bool {
        self.octets@ =~= o.octets@
    }
}

impl Address {
    /// Builds the address with the six given octets, most significant
    /// first.
    pub fn new(octets: [u8; 6]) -> (r: Self)
        ensures
            r@ == octets@,
    {
        Address { octets }
    }
}

/// True for the characters that may stand in a hexadecimal octet pair.
pub open spec fn is_hex_digit(c: char) -> bool {
    ('0' <= c && c <= '9') || ('a' <= c && c <= 'f') || ('A' <= c && c <= 'F')
}

/// The numeric value of a hexadecimal digit.
pub open spec fn hex_val(c: char) -> u8 {
    if '0' <= c && c <= '9' {
        ((c as int) - 48) as u8
    } else if 'a' <= c && c <= 'f' {
        ((c as int) - 87) as u8
    } else {
        ((c as int) - 55) as u8
    }
}

/// The octet denoted by the hexadecimal pair starting at position `i`.
pub open spec fn hex_pair_val(s: Seq<char>, i: int) -> u8 {
    (hex_val(s[i]) * 16 + hex_val(s[i + 1])) as u8
}

/// Well-formedness of the underscore-joined textual address form:
/// exactly six hexadecimal pairs separated by underscores.
pub open spec fn addr_text_well_formed(s: Seq<char>) -> bool {
    &&& s.len() == 17
    &&& is_hex_digit(s[0]) && is_hex_digit(s[1]) && s[2] == '_'
    &&& is_hex_digit(s[3]) && is_hex_digit(s[4]) && s[5] == '_'
    &&& is_hex_digit(s[6]) && is_hex_digit(s[7]) && s[8] == '_'
    &&& is_hex_digit(s[9]) && is_hex_digit(s[10]) && s[11] == '_'
    &&& is_hex_digit(s[12]) && is_hex_digit(s[13]) && s[14] == '_'
    &&& is_hex_digit(s[15]) && is_hex_digit(s[16])
}

/// The six octets that a well-formed textual address denotes.
pub open spec fn addr_text_octets(s: Seq<char>) -> Seq<u8> {
    seq![
        hex_pair_val(s, 0),
        hex_pair_val(s, 3),
        hex_pair_val(s, 6),
        hex_pair_val(s, 9),
        hex_pair_val(s, 12),
        hex_pair_val(s, 15),
    ]
}

/// The numeric value of one hexadecimal digit, or `None` for any other
/// character.
fn hex_digit_val(c: char) -> (r: Option<u8>)
    ensures
        r is Some <==> is_hex_digit(c),
        r is Some ==> r->0 == hex_val(c),
{
    if '0' <= c && c <= '9' {
        Some(c as u8 - 48)
    } else if 'a' <= c && c <= 'f' {
        Some(c as u8 - 87)
    } else if 'A' <= c && c <= 'F' {
        Some(c as u8 - 55)
    } else {
        None
    }
}

/// Reads the hexadecimal pair starting at position `i`, or `None` if
/// either character is not a hexadecimal digit.
fn hex_pair_at(s: &str, i: usize) -> (r: Option<u8>)
    requires
        s@.len() == 17,
        i + 1 < 17,
    ensures
        r is Some <==> is_hex_digit(s@[i as int]) && is_hex_digit(s@[i + 1]),
        r is Some ==> r->0 == hex_pair_val(s@, i as int),
{
    let hi = s.get_char(i);
    let lo = s.get_char(i + 1);
    match (hex_digit_val(hi), hex_digit_val(lo)) {
        (Some(h), Some(l)) => Some(h * 16 + l),
        _ => None,
    }
}

/// The uppercase hexadecimal character for a nibble.
pub open spec fn upper_hex_char(n: u8) -> char {
    if n == 0 {
        '0'
    } else if n == 1 {
        '1'
    } else if n == 2 {
        '2'
    } else if n == 3 {
        '3'
    } else if n == 4 {
        '4'
    } else if n == 5 {
        '5'
    } else if n == 6 {
        '6'
    } else if n == 7 {
        '7'
    } else if n == 8 {
        '8'
    } else if n == 9 {
        '9'
    } else if n == 10 {
        'A'
    } else if n == 11 {
        'B'
    } else if n == 12 {
        'C'
    } else if n == 13 {
        'D'
    } else if n == 14 {
        'E'
    } else {
        'F'
    }
}

/// Every nibble's uppercase character is a hexadecimal digit denoting
/// the nibble itself.
pub proof fn lemma_upper_hex_char(n: u8)
    requires
        n < 16,
    ensures
        is_hex_digit(upper_hex_char(n)),
        hex_val(upper_hex_char(n)) == n,
{
}

/// The one-character text of a nibble, uppercase.
fn upper_hex_str(n: u8) -> (r: &'static str)
    requires
        n < 16,
    ensures
        r@.len() == 1,
        r@[0] == upper_hex_char(n),
{
    proof {
        reveal_strlit("0");
        reveal_strlit("1");
        reveal_strlit("2");
        reveal_strlit("3");
        reveal_strlit("4");
        reveal_strlit("5");
        reveal_strlit("6");
        reveal_strlit("7");
        reveal_strlit("8");
        reveal_strlit("9");
        reveal_strlit("A");
        reveal_strlit("B");
        reveal_strlit("C");
        reveal_strlit("D");
        reveal_strlit("E");
        reveal_strlit("F");
    }
    match n {
        0 => "0",
        1 => "1",
        2 => "2",
        3 => "3",
        4 => "4",
        5 => "5",
        6 => "6",
        7 => "7",
        8 => "8",
        9 => "9",
        10 => "A",
        11 => "B",
        12 => "C",
        13 => "D",
        14 => "E",
        _ => "F",
    }
}

/// Appends the two uppercase hexadecimal characters of one octet.
fn append_octet(s: &mut String, o: u8)
    ensures
        final(s)@ =~= old(s)@ + seq![
            upper_hex_char((o / 16) as u8),
            upper_hex_char((o % 16) as u8),
        ],
{
    let hi = upper_hex_str(o / 16);
    let lo = upper_hex_str(o % 16);
    s.append(hi);
    s.append(lo);
}

/// Writes the underscore-joined textual form of an address, uppercase,
/// exactly the form that [`parse_addr_text`] accepts and that denotes
/// the same octets.
pub fn addr_to_text(a: &Address) -> (r: String)
    ensures
        addr_text_well_formed(r@),
        addr_text_octets(r@) =~= a@,
{
    proof {
        reveal_strlit("_");
    }
    let mut s = String::new();
    append_octet(&mut s, a.octets[0]);
    s.append("_");
    append_octet(&mut s, a.octets[1]);
    s.append("_");
    append_octet(&mut s, a.octets[2]);
    s.append("_");
    append_octet(&mut s, a.octets[3]);
    s.append("_");
    append_octet(&mut s, a.octets[4]);
    s.append("_");
    append_octet(&mut s, a.octets[5]);
    proof {
        let t = seq![
            upper_hex_char((a.octets[0] / 16) as u8),
            upper_hex_char((a.octets[0] % 16) as u8),
            '_',
            upper_hex_char((a.octets[1] / 16) as u8),
            upper_hex_char((a.octets[1] % 16) as u8),
            '_',
            upper_hex_char((a.octets[2] / 16) as u8),
            upper_hex_char((a.octets[2] % 16) as u8),
            '_',
            upper_hex_char((a.octets[3] / 16) as u8),
            upper_hex_char((a.octets[3] % 16) as u8),
            '_',
            upper_hex_char((a.octets[4] / 16) as u8),
            upper_hex_char((a.octets[4] % 16) as u8),
            '_',
            upper_hex_char((a.octets[5] / 16) as u8),
            upper_hex_char((a.octets[5] % 16) as u8),
        ];
        assert(s@ =~= t);
        assert forall|k: u8| k < 16 implies is_hex_digit(#[trigger] upper_hex_char(k))
            && hex_val(upper_hex_char(k)) == k by {
            lemma_upper_hex_char(k);
        }
        assert(addr_text_well_formed(s@));
        assert(addr_text_octets(s@) =~= a@);
    }
    s
}

/// Parses the underscore-joined textual address form that object paths
/// carry. Returns `None` exactly when the text is malformed.
pub fn parse_addr_text(s: &str) -> (r: Option<Address>)
    ensures
        r is Some <==> addr_text_well_formed(s@),
        r is Some ==> (r->0)@ =~= addr_text_octets(s@),
{
    let n = s.unicode_len();
    if n != 17 {
        return None;
    }
    let o0 = hex_pair_at(s, 0);
    let o1 = hex_pair_at(s, 3);
    let o2 = hex_pair_at(s, 6);
    let o3 = hex_pair_at(s, 9);
    let o4 = hex_pair_at(s, 12);
    let o5 = hex_pair_at(s, 15);
    let sep_ok = s.get_char(2) == '_' && s.get_char(5) == '_' && s.get_char(8) == '_'
        && s.get_char(11) == '_' && s.get_char(14) == '_';
    match (o0, o1, o2, o3, o4, o5) {
        (Some(b0), Some(b1), Some(b2), Some(b3), Some(b4), Some(b5)) if sep_ok => {
            Some(Address { octets: [b0, b1, b2, b3, b4, b5] })
        },
        _ => None,
    }
}

} // verus!
