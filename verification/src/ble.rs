//! Bluetooth LE: the scan filter and the choice of the characteristic a
//! message is written to.
//!
//! The radio (adapters, scanning, connecting, writing) is driven from
//! outside; it hands this module the texts it reads off the devices.
use vstd::prelude::*;
use crate::text::{contains, spec_contains};
use vstd::string::StringSliceAdditionalSpecFns;

verus! {

/// What `uuid::Uuid::parse_str` gives for a text: the UUID as a number
/// (its sixteen bytes read big-endian), or the text of the parse error.
pub uninterp spec fn uuid_parse_str(s: Seq<char>) -> Result<u128, Seq<char>>;

/// `c` is a hexadecimal digit, in either case.
pub open spec fn is_hex_digit(c: char) -> bool {
    ('0' <= c && c <= '9') || ('a' <= c && c <= 'f') || ('A' <= c && c <= 'F')
}

/// The value of the hexadecimal digit `c`.
pub open spec fn hex_digit_value(c: char) -> int {
    if '0' <= c && c <= '9' {
        c as int - '0' as int
    } else if 'a' <= c && c <= 'f' {
        c as int - 'a' as int + 10
    } else {
        c as int - 'A' as int + 10
    }
}

/// Every character of `d` is a hexadecimal digit.
pub open spec fn all_hex(d: Seq<char>) -> bool {
    forall|i: int| 0 <= i < d.len() ==> is_hex_digit(d[i])
}

/// The number the hexadecimal digits `d` spell, the most significant
/// first.
pub open spec fn hex_value(d: Seq<char>) -> int
    decreases d.len(),
{
    if d.len() == 0 {
        0
    } else {
        16 * hex_value(d.drop_last()) + hex_digit_value(d.last())
    }
}

/// Sixteen to the power `n`.
pub open spec fn pow16(n: nat) -> int
    decreases n,
{
    if n == 0 {
        1
    } else {
        16 * pow16((n - 1) as nat)
    }
}

/// Where the `i`-th of the 32 digits of a hyphenated UUID stands in its
/// text (groups of 8, 4, 4, 4 and 12 digits, a hyphen between groups).
pub open spec fn hyphenated_index(i: int) -> int {
    if i < 8 {
        i
    } else if i < 12 {
        i + 1
    } else if i < 16 {
        i + 2
    } else if i < 20 {
        i + 3
    } else {
        i + 4
    }
}

/// The 32 digit positions of the hyphenated text `h`, hyphens left out.
pub open spec fn hyphenated_digits(h: Seq<char>) -> Seq<char> {
    Seq::new(32, |i: int| h[hyphenated_index(i)])
}

/// `h` is a hyphenated UUID: 36 characters, hyphens at 8, 13, 18 and 23,
/// hexadecimal digits elsewhere.
pub open spec fn hyphenated_form(h: Seq<char>) -> bool {
    &&& h.len() == 36
    &&& h[8] == '-' && h[13] == '-' && h[18] == '-' && h[23] == '-'
    &&& all_hex(hyphenated_digits(h))
}

/// `p` is `urn:uuid:` in any mix of letter cases.
pub open spec fn urn_prefix(p: Seq<char>) -> bool {
    &&& p.len() == 9
    &&& (p[0] == 'u' || p[0] == 'U') && (p[1] == 'r' || p[1] == 'R') && (p[2] == 'n' || p[2] == 'N')
    &&& p[3] == ':'
    &&& (p[4] == 'u' || p[4] == 'U') && (p[5] == 'u' || p[5] == 'U') && (p[6] == 'i' || p[6] == 'I')
    &&& (p[7] == 'd' || p[7] == 'D')
    &&& p[8] == ':'
}

/// The 32 digits a UUID text spells, in the four forms a UUID is written
/// in: simple (32 digits), hyphenated, braced (`{` hyphenated `}`) and URN
/// (`urn:uuid:` hyphenated); `None` for any other text.
pub open spec fn uuid_digits(s: Seq<char>) -> Option<Seq<char>> {
    if s.len() == 32 {
        if all_hex(s) {
            Some(s)
        } else {
            None
        }
    } else if s.len() == 36 {
        if hyphenated_form(s) {
            Some(hyphenated_digits(s))
        } else {
            None
        }
    } else if s.len() == 38 && s[0] == '{' && s[37] == '}' {
        if hyphenated_form(s.subrange(1, 37)) {
            Some(hyphenated_digits(s.subrange(1, 37)))
        } else {
            None
        }
    } else if s.len() == 45 && urn_prefix(s.subrange(0, 9)) {
        if hyphenated_form(s.subrange(9, 45)) {
            Some(hyphenated_digits(s.subrange(9, 45)))
        } else {
            None
        }
    } else {
        None
    }
}

/// The UUID a text spells, as the number its digits spell (its sixteen
/// bytes read big-endian); `None` when the text is in none of the four
/// forms.
pub open spec fn uuid_text_value(s: Seq<char>) -> Option<u128> {
    match uuid_digits(s) {
        Some(d) => Some(hex_value(d) as u128),
        None => None,
    }
}

/// Calls `uuid::Uuid::parse_str` on `s`.
///
/// Claims that the answer is the named result `uuid_parse_str` of the text,
/// the UUID taken as its `u128` value and an error taken as its printed
/// text; as the parser's first match on the input length shows, that only
/// a text of 32, 36, 38 or 45 bytes can parse; and, as its documentation
/// says ("any of the formats generated by this module (simple, hyphenated,
/// urn, Microsoft GUID) are supported"), that a text parses exactly when it
/// is in one of those four forms, to the UUID whose bytes its digits spell
/// (`as_u128` packs those bytes big-endian). The error texts are left to
/// the name.
#[verifier::external_body]
fn parse_uuid(s: &str) -> (r: Result<u128, String>)
    ensures
        r is Ok <==> uuid_text_value(s@) is Some,
        r matches Ok(a) ==> uuid_text_value(s@) == Some(a),
        match (r, uuid_parse_str(s@)) {
            (Ok(a), Ok(b)) => a == b,
            (Err(m), Err(t)) => m@ == t,
            _ => false,
        },
        r is Ok ==> (s.spec_bytes().len() == 32 || s.spec_bytes().len() == 36
            || s.spec_bytes().len() == 38 || s.spec_bytes().len() == 45),
{
    match uuid::Uuid::parse_str(s) {
        Ok(u) => Ok(u.as_u128()),
        Err(e) => Err(e.to_string()),
    }
}

/// The digits read at `off` in `cs`: 32 in a row, or, when `hyphenated`,
/// the 32 digit positions of a hyphenated UUID starting there.
pub open spec fn digits_at(cs: Seq<char>, off: int, hyphenated: bool) -> Seq<char> {
    Seq::new(
        32,
        |i: int|
            cs[off + if hyphenated {
                hyphenated_index(i)
            } else {
                i
            }],
    )
}

/// The value of the hexadecimal digit `c`, if it is one.
fn hex_digit(c: char) -> (r: Option<u8>)
    ensures
        r is Some <==> is_hex_digit(c),
        r matches Some(v) ==> v == hex_digit_value(c),
{
    if '0' <= c && c <= '9' {
        Some(((c as u32) - ('0' as u32)) as u8)
    } else if 'a' <= c && c <= 'f' {
        Some(((c as u32) - ('a' as u32) + 10) as u8)
    } else if 'A' <= c && c <= 'F' {
        Some(((c as u32) - ('A' as u32) + 10) as u8)
    } else {
        None
    }
}

/// [`hyphenated_index`], computed.
fn hyphenated_position(i: usize) -> (r: usize)
    requires
        i < 32,
    ensures
        r == hyphenated_index(i as int),
{
    if i < 8 {
        i
    } else if i < 12 {
        i + 1
    } else if i < 16 {
        i + 2
    } else if i < 20 {
        i + 3
    } else {
        i + 4
    }
}

/// Sixteen to a power grows with the power, and `16^32` is `2^128`.
proof fn lemma_pow16_bound(i: nat)
    requires
        i <= 32,
    ensures
        1 <= pow16(i) <= pow16(32),
        pow16(32) == 0x1_0000_0000_0000_0000_0000_0000_0000_0000,
    decreases 32 - i,
{
    reveal_with_fuel(pow16, 33);
    if i < 32 {
        lemma_pow16_bound(i + 1);
    }
}

/// The number spelled by the 32 digits at `off` (see [`digits_at`]), or
/// `None` when one of them is no hexadecimal digit.
fn read_digits(cs: &Vec<char>, off: usize, hyphenated: bool) -> (r: Option<u128>)
    requires
        off + (if hyphenated {
            36int
        } else {
            32int
        }) <= cs.len(),
    ensures
        r == (if all_hex(digits_at(cs@, off as int, hyphenated)) {
            Some(hex_value(digits_at(cs@, off as int, hyphenated)) as u128)
        } else {
            None
        }),
{
    let ghost d = digits_at(cs@, off as int, hyphenated);
    let mut v: u128 = 0;
    let mut i: usize = 0;
    proof {
        assert(d.take(0) =~= Seq::<char>::empty());
        reveal_with_fuel(pow16, 1);
    }
    while i < 32
        invariant
            i <= 32,
            off + (if hyphenated {
                36int
            } else {
                32int
            }) <= cs.len(),
            d == digits_at(cs@, off as int, hyphenated),
            v == hex_value(d.take(i as int)),
            all_hex(d.take(i as int)),
            hex_value(d.take(i as int)) < pow16(i as nat),
            0 <= hex_value(d.take(i as int)),
        decreases 32 - i,
    {
        let k = if hyphenated {
            hyphenated_position(i)
        } else {
            i
        };
        let c = cs[off + k];
        assert(c == d[i as int]);
        match hex_digit(c) {
            None => {
                return None;
            },
            Some(x) => {
                proof {
                    let t = d.take(i as int + 1);
                    assert(t.drop_last() =~= d.take(i as int));
                    assert(t.last() == d[i as int]);
                    assert(hex_value(t) == 16 * hex_value(d.take(i as int)) + hex_digit_value(c));
                    lemma_pow16_bound(i as nat + 1);
                    assert(pow16(i as nat + 1) == 16 * pow16(i as nat));
                    assert(all_hex(t)) by {
                        assert forall|j: int| 0 <= j < t.len() implies is_hex_digit(t[j]) by {
                            if j < i {
                                assert(t[j] == d.take(i as int)[j]);
                            }
                        }
                    }
                }
                v = v * 16 + x as u128;
            },
        }
        i = i + 1;
    }
    proof {
        assert(d.take(32) =~= d);
    }
    Some(v)
}

/// Whether the hyphens of a hyphenated UUID starting at `off` stand where
/// they must.
fn hyphens_at(cs: &Vec<char>, off: usize) -> (b: bool)
    requires
        off + 36 <= cs.len(),
    ensures
        b == (cs@[off + 8] == '-' && cs@[off + 13] == '-' && cs@[off + 18] == '-' && cs@[off
            + 23] == '-'),
{
    cs[off + 8] == '-' && cs[off + 13] == '-' && cs[off + 18] == '-' && cs[off + 23] == '-'
}

/// Whether `cs` begins with `urn:uuid:`, in any mix of letter cases.
fn urn_prefix_at(cs: &Vec<char>) -> (b: bool)
    requires
        cs@.len() >= 9,
    ensures
        b == urn_prefix(cs@.subrange(0, 9)),
{
    (cs[0] == 'u' || cs[0] == 'U') && (cs[1] == 'r' || cs[1] == 'R') && (cs[2] == 'n' || cs[2]
        == 'N') && cs[3] == ':' && (cs[4] == 'u' || cs[4] == 'U') && (cs[5] == 'u' || cs[5]
        == 'U') && (cs[6] == 'i' || cs[6] == 'I') && (cs[7] == 'd' || cs[7] == 'D') && cs[8]
        == ':'
}

/// Reads the UUID a text spells, in any of its four forms (simple,
/// hyphenated, braced, URN; digits in either case): the number its digits
/// spell, or `None` when the text is in none of them.
pub fn read_uuid(s: &str) -> (r: Option<u128>)
    ensures
        r == uuid_text_value(s@),
{
    let cs = crate::text::chars_of(s);
    let n = cs.len();
    if n == 32 {
        proof {
            assert(digits_at(cs@, 0, false) =~= s@);
        }
        read_digits(&cs, 0, false)
    } else if n == 36 {
        proof {
            assert(s@.subrange(0, 36) =~= s@);
            assert(digits_at(cs@, 0, true) =~= hyphenated_digits(s@));
        }
        if hyphens_at(&cs, 0) {
            read_digits(&cs, 0, true)
        } else {
            None
        }
    } else if n == 38 {
        if cs[0] == '{' && cs[37] == '}' {
            let ghost h = s@.subrange(1, 37);
            proof {
                assert(digits_at(cs@, 1, true) =~= hyphenated_digits(h));
                assert(h[8] == cs@[9] && h[13] == cs@[14] && h[18] == cs@[19] && h[23] == cs@[24]);
            }
            if hyphens_at(&cs, 1) {
                read_digits(&cs, 1, true)
            } else {
                None
            }
        } else {
            None
        }
    } else if n == 45 {
        if urn_prefix_at(&cs) {
            let ghost h = s@.subrange(9, 45);
            proof {
                assert(digits_at(cs@, 9, true) =~= hyphenated_digits(h));
                assert(h[8] == cs@[17] && h[13] == cs@[22] && h[18] == cs@[27] && h[23] == cs@[32]);
            }
            if hyphens_at(&cs, 9) {
                read_digits(&cs, 9, true)
            } else {
                None
            }
        } else {
            None
        }
    } else {
        None
    }
}

/// How far digit position `k` of a hyphenated text is from the digit it
/// holds (the hyphens before it).
pub open spec fn hyphens_before(k: int) -> int {
    if k < 8 {
        0
    } else if k < 13 {
        1
    } else if k < 18 {
        2
    } else if k < 23 {
        3
    } else {
        4
    }
}

/// The hyphenated text of the 32 digits `d`: groups of 8, 4, 4, 4 and 12
/// digits with a hyphen between groups.
pub open spec fn hyphenate(d: Seq<char>) -> Seq<char> {
    Seq::new(
        36,
        |k: int|
            if k == 8 || k == 13 || k == 18 || k == 23 {
                '-'
            } else {
                d[k - hyphens_before(k)]
            },
    )
}

/// The digits `d` spell a number below `16^len`, and no negative one.
pub proof fn lemma_hex_value_bound(d: Seq<char>)
    requires
        all_hex(d),
    ensures
        0 <= hex_value(d) < pow16(d.len()),
    decreases d.len(),
{
    if d.len() > 0 {
        lemma_hex_value_bound(d.drop_last());
        assert(pow16(d.len()) == 16 * pow16((d.len() - 1) as nat));
    }
}

/// Big-endian: the digits `a` followed by the digits `b` spell the number
/// of `a` shifted left by as many digits as `b` has, plus the number of `b`.
pub proof fn lemma_hex_value_concat(a: Seq<char>, b: Seq<char>)
    ensures
        hex_value(a + b) == hex_value(a) * pow16(b.len()) + hex_value(b),
    decreases b.len(),
{
    if b.len() == 0 {
        assert(a + b =~= a);
    } else {
        lemma_hex_value_concat(a, b.drop_last());
        assert((a + b).drop_last() =~= a + b.drop_last());
        assert((a + b).last() == b.last());
        let x = hex_value(a);
        let p = pow16((b.len() - 1) as nat);
        assert(pow16(b.len()) == 16 * p);
        assert(16 * (x * p) == x * (16 * p)) by (nonlinear_arith);
    }
}

/// The four spellings of one UUID (simple, hyphenated, braced, URN) read as
/// the same UUID: the number its 32 digits spell, most significant first,
/// which fits in 128 bits.
pub proof fn lemma_uuid_spellings_agree(d: Seq<char>)
    requires
        d.len() == 32,
        all_hex(d),
    ensures
        0 <= hex_value(d) < pow16(32),
        uuid_text_value(d) matches Some(u) && u == hex_value(d),
        uuid_text_value(hyphenate(d)) == uuid_text_value(d),
        uuid_text_value(seq!['{'] + hyphenate(d) + seq!['}']) == uuid_text_value(d),
        uuid_text_value(seq!['u', 'r', 'n', ':', 'u', 'u', 'i', 'd', ':'] + hyphenate(d))
            == uuid_text_value(d),
{
    lemma_hex_value_bound(d);
    lemma_pow16_bound(32);
    let h = hyphenate(d);
    assert(hyphenated_digits(h) =~= d);
    assert(hyphenated_form(h));
    let braced = seq!['{'] + h + seq!['}'];
    assert(braced.subrange(1, 37) =~= h);
    let urn = seq!['u', 'r', 'n', ':', 'u', 'u', 'i', 'd', ':'] + h;
    assert(urn.subrange(9, 45) =~= h);
    assert(urn.subrange(0, 9) =~= seq!['u', 'r', 'n', ':', 'u', 'u', 'i', 'd', ':']);
}

/// The message of a scan refused for the filter text `s`, whose parse
/// failed with `reason`.
pub open spec fn invalid_uuid_message(s: Seq<char>, reason: Seq<char>) -> Seq<char> {
    "Invalid service UUID string '"@ + s + "': "@ + reason
}

/// The scan filter for the filter text `s`, given what parsing it as a UUID
/// gave: the one service UUID to scan for, or the message the scan is
/// refused with.
pub fn scan_filter_from(s: &str, parsed: Result<u128, String>) -> (r: Result<Vec<u128>, String>)
    ensures
        match parsed {
            Ok(u) => r matches Ok(v) && v@ == seq![u],
            Err(reason) => r matches Err(m) && m@ == invalid_uuid_message(s@, reason@),
        },
{
    match parsed {
        Ok(u) => {
            let mut v: Vec<u128> = Vec::new();
            v.push(u);
            Ok(v)
        },
        Err(reason) => {
            let mut m = String::from_str("Invalid service UUID string '");
            m.append(s);
            m.append("': ");
            m.append(reason.as_str());
            Err(m)
        },
    }
}

/// `r` is the filter of a scan for the filter text `service_uuid_str`:
/// with no text, no UUID (every device is reported); with one, the UUID it
/// spells, or the message the scan is refused with when it spells none.
pub open spec fn scan_filter_is(service_uuid_str: Option<Seq<char>>, r: Result<Vec<u128>, String>) -> bool {
    match service_uuid_str {
        None => r matches Ok(v) && v@.len() == 0,
        Some(s) => match uuid_parse_str(s) {
            Ok(u) => r matches Ok(v) && v@ == seq![u],
            Err(reason) => r matches Err(m) && m@ == invalid_uuid_message(s, reason),
        },
    }
}

/// The view of an optional text.
pub open spec fn opt_view(s: Option<&str>) -> Option<Seq<char>> {
    match s {
        Some(t) => Some(t@),
        None => None,
    }
}

/// The service UUIDs a scan looks for: with no filter text, none (every
/// device is reported); with one, the UUID it spells, or the message the
/// scan is refused with when it spells none.
pub fn scan_filter(service_uuid_str: Option<&str>) -> (r: Result<Vec<u128>, String>)
    ensures
        scan_filter_is(opt_view(service_uuid_str), r),
        service_uuid_str is None ==> (r matches Ok(v) && v@.len() == 0),
        service_uuid_str matches Some(s) ==> match uuid_text_value(s@) {
            Some(u) => r matches Ok(v) && v@ == seq![u],
            None => r is Err,
        },
{
    match service_uuid_str {
        None => Ok(Vec::new()),
        Some(s) => {
            let parsed = parse_uuid(s);
            match read_uuid(s) {
                Some(u) => {
                    let mut v: Vec<u128> = Vec::new();
                    v.push(u);
                    Ok(v)
                },
                None => scan_filter_from(s, parsed),
            }
        },
    }
}

/// Starts a scan once the adapters are listed: with no adapter there is
/// nothing to scan and no device is reported (`Ok(None)`), whatever the
/// filter text; otherwise the scan runs with the filter of
/// [`scan_filter`] (`Ok(Some(..))`), or is refused with its message.
pub fn scan_start(has_adapter: bool, service_uuid_str: Option<&str>) -> (r: Result<Option<Vec<u128>>, String>)
    ensures
        !has_adapter ==> r matches Ok(None),
        has_adapter && service_uuid_str is None ==> (r matches Ok(Some(v)) && v@.len() == 0),
        service_uuid_str matches Some(s) ==> (has_adapter ==> match uuid_text_value(s@) {
            Some(u) => r matches Ok(Some(v)) && v@ == seq![u],
            None => r is Err,
        }),
        has_adapter ==> match r {
            Ok(Some(v)) => scan_filter_is(opt_view(service_uuid_str), Ok(v)),
            Ok(None) => false,
            Err(m) => scan_filter_is(opt_view(service_uuid_str), Err(m)),
        },
{
    if !has_adapter {
        return Ok(None);
    }
    match scan_filter(service_uuid_str) {
        Ok(v) => Ok(Some(v)),
        Err(m) => Err(m),
    }
}

/// A GATT service of a connected device: the printed UUID of the service
/// and those of its characteristics, in the order the device lists them.
pub struct GattService {
    pub uuid: String,
    pub characteristics: Vec<String>,
}

/// Characteristic `j` of service `i` is one a message for `service_name`
/// and `characteristic_name` may be written to: the service's UUID contains
/// the one name and the characteristic's UUID the other.
pub open spec fn pair_matches(
    services: Seq<GattService>,
    i: int,
    j: int,
    service_name: Seq<char>,
    characteristic_name: Seq<char>,
) -> bool {
    &&& 0 <= i < services.len()
    &&& spec_contains(services[i].uuid@, service_name)
    &&& 0 <= j < services[i].characteristics@.len()
    &&& spec_contains(services[i].characteristics@[j]@, characteristic_name)
}

/// The message a write fails with when no characteristic fits.
pub open spec fn no_match_message() -> Seq<char> {
    "No service or characteristic found."@
}

/// Chooses where a message is written: the first characteristic, in the
/// order of the services and then of their characteristics, of a service
/// whose UUID contains `service_name`, whose own UUID contains
/// `characteristic_name`. Gives its position `(service, characteristic)`,
/// or the message the write fails with when there is none.
pub fn select_characteristic(
    services: &Vec<GattService>,
    service_name: &str,
    characteristic_name: &str,
) -> (r: Result<(usize, usize), String>)
    ensures
        match r {
            Ok((i, j)) => {
                &&& pair_matches(services@, i as int, j as int, service_name@, characteristic_name@)
                &&& forall|i2: int, j2: int|
                    (i2 < i || (i2 == i && j2 < j)) ==> !pair_matches(
                        services@,
                        i2,
                        j2,
                        service_name@,
                        characteristic_name@,
                    )
            },
            Err(m) => {
                &&& m@ == no_match_message()
                &&& forall|i2: int, j2: int|
                    !pair_matches(services@, i2, j2, service_name@, characteristic_name@)
            },
        },
{
    let mut i: usize = 0;
    while i < services.len()
        invariant
            i <= services.len(),
            forall|i2: int, j2: int|
                i2 < i ==> !pair_matches(services@, i2, j2, service_name@, characteristic_name@),
        decreases services.len() - i,
    {
        let service = &services[i];
        if contains(service.uuid.as_str(), service_name) {
            let mut j: usize = 0;
            while j < service.characteristics.len()
                invariant
                    i < services.len(),
                    *service == services@[i as int],
                    spec_contains(service.uuid@, service_name@),
                    j <= service.characteristics.len(),
                    forall|i2: int, j2: int|
                        i2 < i ==> !pair_matches(
                            services@,
                            i2,
                            j2,
                            service_name@,
                            characteristic_name@,
                        ),
                    forall|j2: int|
                        j2 < j ==> !pair_matches(
                            services@,
                            i as int,
                            j2,
                            service_name@,
                            characteristic_name@,
                        ),
                decreases service.characteristics.len() - j,
            {
                if contains(service.characteristics[j].as_str(), characteristic_name) {
                    return Ok((i, j));
                }
                j = j + 1;
            }
        }
        i = i + 1;
    }
    Err(String::from_str("No service or characteristic found."))
}

} // verus!
