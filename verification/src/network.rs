use vstd::prelude::*;
use vstd::string::*;

use crate::text::{
    all_digits, decimal, decimal_string, digits_value, is_digit, lemma_decimal,
    lemma_decimal_of_digits,
};

verus! {

/// The fields of `s` between its '.' characters, in order; a string with no
/// dot is one field, and an empty field stands between two adjacent dots.
pub open spec fn split_dots(s: Seq<char>) -> Seq<Seq<char>>
    decreases s.len(),
{
    if s.len() == 0 {
        seq![Seq::<char>::empty()]
    } else {
        let rest = split_dots(s.drop_last());
        if s.last() == '.' {
            rest.push(Seq::<char>::empty())
        } else {
            rest.update(rest.len() - 1, rest.last().push(s.last()))
        }
    }
}

/// One octet of a dotted-quad IPv4 address as std's parser accepts it:
/// one to three decimal digits, no leading zero, value at most 255.
pub open spec fn is_octet_text(t: Seq<char>) -> bool {
    &&& 1 <= t.len() <= 3
    &&& all_digits(t)
    &&& (t.len() > 1 ==> t[0] != '0')
    &&& digits_value(t) <= 255
}

/// The four octets that the dotted-quad text `s` denotes, if it is one.
pub open spec fn ipv4_octets(s: Seq<char>) -> Option<(u8, u8, u8, u8)> {
    let f = split_dots(s);
    if f.len() == 4 && is_octet_text(f[0]) && is_octet_text(f[1]) && is_octet_text(f[2])
        && is_octet_text(f[3]) {
        Some(
            (
                digits_value(f[0]) as u8,
                digits_value(f[1]) as u8,
                digits_value(f[2]) as u8,
                digits_value(f[3]) as u8,
            ),
        )
    } else {
        None
    }
}

/// The dotted-quad text of an address.
pub open spec fn ipv4_text(a: u8, b: u8, c: u8, d: u8) -> Seq<char> {
    decimal(a as nat) + seq!['.'] + decimal(b as nat) + seq!['.'] + decimal(c as nat) + seq!['.']
        + decimal(d as nat)
}

/// The /24 network of the address written in `ip`, or "Unknown" where `ip`
/// is no IPv4 address.
pub open spec fn network_segment_text(ip: Seq<char>) -> Seq<char> {
    match ipv4_octets(ip) {
        Some((a, b, c, _)) => decimal(a as nat) + "."@ + decimal(b as nat) + "."@ + decimal(
            c as nat,
        ) + ".0/24"@,
        None => "Unknown"@,
    }
}

proof fn lemma_split_dots_nonempty(s: Seq<char>)
    ensures
        split_dots(s).len() >= 1,
    decreases s.len(),
{
    if s.len() > 0 {
        lemma_split_dots_nonempty(s.drop_last());
    }
}

/// The fields joined back with '.' between them.
pub open spec fn join_dots(f: Seq<Seq<char>>) -> Seq<char>
    decreases f.len(),
{
    if f.len() <= 1 {
        if f.len() == 1 {
            f[0]
        } else {
            Seq::<char>::empty()
        }
    } else {
        join_dots(f.drop_last()) + seq!['.'] + f.last()
    }
}

proof fn lemma_join_split(s: Seq<char>)
    ensures
        join_dots(split_dots(s)) == s,
    decreases s.len(),
{
    if s.len() > 0 {
        let p = s.drop_last();
        lemma_join_split(p);
        lemma_split_dots_nonempty(p);
        let f = split_dots(p);
        let f2 = split_dots(s);
        if s.last() == '.' {
            assert(f2.drop_last() =~= f);
            assert(s =~= p + seq!['.'] + Seq::<char>::empty());
        } else {
            if f.len() == 1 {
                assert(f2[0] == f[0].push(s.last()));
                assert(s =~= p.push(s.last()));
            } else {
                assert(f2.drop_last() =~= f.drop_last());
                assert(join_dots(f) == join_dots(f.drop_last()) + seq!['.'] + f.last());
                assert(p == join_dots(f));
                assert(s =~= p.push(s.last()));
                let x = join_dots(f.drop_last());
                assert(p == x + seq!['.'] + f.last());
                assert((x + seq!['.'] + f.last()).push(s.last()) =~= x + seq!['.'] + f.last().push(s.last()));
                assert(f2.last() == f.last().push(s.last()));
                assert(f2.len() == f.len());
                assert(join_dots(f2) == join_dots(f2.drop_last()) + seq!['.'] + f2.last());
                assert(s =~= join_dots(f.drop_last()) + seq!['.'] + f.last().push(s.last()));
            }
        }
    } else {
        assert(split_dots(s) =~= seq![Seq::<char>::empty()]);
    }
}

/// Appending text with no '.' extends the last field.
proof fn lemma_split_append_field(p: Seq<char>, y: Seq<char>)
    requires
        all_digits(y),
    ensures
        split_dots(p + y) == split_dots(p).update(
            split_dots(p).len() - 1,
            split_dots(p).last() + y,
        ),
    decreases y.len(),
{
    lemma_split_dots_nonempty(p);
    let f = split_dots(p);
    if y.len() == 0 {
        assert(p + y =~= p);
        assert(f.last() + y =~= f.last());
        assert(f.update(f.len() - 1, f.last() + y) =~= f);
    } else {
        let y0 = y.drop_last();
        assert(all_digits(y0)) by {
            assert forall|j: int| 0 <= j < y0.len() implies is_digit(#[trigger] y0[j]) by {
                assert(y0[j] == y[j]);
            }
        }
        lemma_split_append_field(p, y0);
        assert((p + y).drop_last() =~= p + y0);
        assert((p + y).last() == y.last());
        assert(is_digit(y[y.len() - 1]));
        assert(y.last() != '.');
        assert((f.last() + y0).push(y.last()) =~= f.last() + y);
        assert(split_dots(p + y) =~= f.update(f.len() - 1, f.last() + y));
    }
}

/// Appending a '.' and then a field of digits adds that field.
proof fn lemma_split_append_dot_field(p: Seq<char>, y: Seq<char>)
    requires
        all_digits(y),
    ensures
        split_dots(p + seq!['.'] + y) == split_dots(p).push(y),
{
    let q = p + seq!['.'];
    assert(q.drop_last() =~= p);
    assert(split_dots(q) == split_dots(p).push(Seq::<char>::empty()));
    lemma_split_append_field(q, y);
    assert(Seq::<char>::empty() + y =~= y);
    assert(split_dots(q + y) =~= split_dots(p).push(y));
}

/// std's IPv4 grammar accepts exactly the canonical dotted-quad texts: the
/// text of four octets parses back to them, and a text that parses is the
/// canonical text of what it parses to. The /24 network of an address's
/// text is its first three octets followed by ".0/24".
pub proof fn lemma_ipv4_text_parse(s: Seq<char>, a: u8, b: u8, c: u8, d: u8)
    ensures
        ipv4_octets(s) == Some((a, b, c, d)) <==> s == ipv4_text(a, b, c, d),
        network_segment_text(ipv4_text(a, b, c, d)) == decimal(a as nat) + "."@ + decimal(
            b as nat,
        ) + "."@ + decimal(c as nat) + ".0/24"@,
{
    lemma_decimal(a as nat);
    lemma_decimal(b as nat);
    lemma_decimal(c as nat);
    lemma_decimal(d as nat);
    let da = decimal(a as nat);
    let db = decimal(b as nat);
    let dc = decimal(c as nat);
    let dd = decimal(d as nat);
    lemma_split_append_field(Seq::<char>::empty(), da);
    assert(Seq::<char>::empty() + da =~= da);
    assert(split_dots(Seq::<char>::empty()) =~= seq![Seq::<char>::empty()]);
    assert(split_dots(da) =~= seq![da]);
    lemma_split_append_dot_field(da, db);
    lemma_split_append_dot_field(da + seq!['.'] + db, dc);
    lemma_split_append_dot_field(da + seq!['.'] + db + seq!['.'] + dc, dd);
    let t = ipv4_text(a, b, c, d);
    assert(split_dots(t) =~= seq![da, db, dc, dd]);
    assert(ipv4_octets(t) == Some((a, b, c, d)));
    if ipv4_octets(s) == Some((a, b, c, d)) {
        let f = split_dots(s);
        lemma_join_split(s);
        lemma_decimal_of_digits(f[0]);
        lemma_decimal_of_digits(f[1]);
        lemma_decimal_of_digits(f[2]);
        lemma_decimal_of_digits(f[3]);
        assert(f[0] == da);
        assert(f[1] == db);
        assert(f[2] == dc);
        assert(f[3] == dd);
        assert(f.drop_last().drop_last().drop_last() =~= seq![da]);
        assert(f.drop_last().drop_last() =~= seq![da, db]);
        assert(f.drop_last() =~= seq![da, db, dc]);
        assert(join_dots(seq![da]) == da);
        assert(join_dots(seq![da, db]) == da + seq!['.'] + db);
        assert(join_dots(seq![da, db, dc]) == da + seq!['.'] + db + seq!['.'] + dc);
        assert(s == join_dots(f));
    }
}

/// Parses a dotted-quad IPv4 address as `str::parse::<Ipv4Addr>` does.
pub fn parse_ipv4(ip: &str) -> (r: Option<(u8, u8, u8, u8)>)
    ensures
        r == ipv4_octets(ip@),
{
    let n = ip.unicode_len();
    let ghost s = ip@;
    let mut vals: Vec<u8> = Vec::new();
    let mut ok = true;
    let mut count: usize = 0;
    let mut cur_len: usize = 0;
    let mut cur_digits = true;
    let mut cur_first_zero = false;
    let mut cur_val: u32 = 0;
    let mut i: usize = 0;
    proof {
        assert(s.take(0) =~= Seq::<char>::empty());
    }
    while i < n
        invariant
            n == s.len(),
            s == ip@,
            i <= n,
            count <= i,
            cur_len <= i,
            split_dots(s.take(i as int)).len() >= 1,
            count == split_dots(s.take(i as int)).len() - 1,
            cur_len == split_dots(s.take(i as int)).last().len(),
            cur_digits == all_digits(split_dots(s.take(i as int)).last()),
            cur_first_zero == (cur_len > 0 && split_dots(s.take(i as int)).last()[0] == '0'),
            (cur_digits && cur_len <= 3) ==> cur_val == digits_value(
                split_dots(s.take(i as int)).last(),
            ) && cur_val < 1000,
            (cur_digits && cur_len <= 2) ==> cur_val < 100,
            (cur_digits && cur_len <= 1) ==> cur_val < 10,
            cur_len == 0 ==> cur_val == 0,
            ok == (count <= 3 && forall|k: int|
                0 <= k < count ==> is_octet_text(#[trigger] split_dots(s.take(i as int))[k])),
            ok ==> vals.len() == count,
            ok ==> forall|k: int|
                0 <= k < count ==> vals@[k] == digits_value(
                    #[trigger] split_dots(s.take(i as int))[k],
                ),
        decreases n - i,
    {
        let ch = ip.get_char(i);
        let ghost p = s.take(i as int);
        let ghost f = split_dots(p);
        let ghost p2 = s.take(i + 1);
        proof {
            assert(p2.drop_last() =~= p);
            assert(p2.last() == ch);
            lemma_split_dots_nonempty(p);
        }
        if ch == '.' {
            let valid = cur_digits && 1 <= cur_len && cur_len <= 3 && !(cur_len > 1
                && cur_first_zero) && cur_val <= 255;
            proof {
                assert(valid == is_octet_text(f.last()));
            }
            if ok && valid && count < 3 {
                vals.push(cur_val as u8);
            } else {
                ok = false;
            }
            count = count + 1;
            cur_len = 0;
            cur_digits = true;
            cur_first_zero = false;
            cur_val = 0;
            proof {
                let f2 = split_dots(p2);
                assert(f2 == f.push(Seq::<char>::empty()));
                assert(f2[f.len() - 1] == f.last());
                assert forall|k: int| 0 <= k < count - 1 implies f2[k] == f[k] by {}
                assert(all_digits(f2.last()));
            }
        } else {
            let is_d = '0' <= ch && ch <= '9';
            let ghost cur = f.last();
            let ghost cur2 = cur.push(ch);
            proof {
                assert(cur2.drop_last() =~= cur);
                assert(cur2.last() == ch);
                assert(all_digits(cur2) == (all_digits(cur) && is_digit(ch))) by {
                    if all_digits(cur2) {
                        assert forall|j: int| 0 <= j < cur.len() implies is_digit(
                            #[trigger] cur[j],
                        ) by {
                            assert(cur2[j] == cur[j]);
                        }
                        assert(cur2[cur.len() as int] == ch);
                    }
                }
                let f2 = split_dots(p2);
                assert(f2 == f.update(f.len() - 1, cur2));
            }
            if cur_len == 0 {
                cur_first_zero = ch == '0';
            }
            cur_len = cur_len + 1;
            cur_digits = cur_digits && is_d;
            if cur_digits && cur_len <= 3 {
                let dv: u32 = (ch as u32) - 48;
                cur_val = cur_val * 10 + dv;
            }
            proof {
                let f2 = split_dots(p2);
                assert(f2.last() == cur2);
                if cur_digits && cur_len <= 3 {
                    assert(digits_value(cur2) == digits_value(cur) * 10 + (ch as int - 48));
                }
                assert forall|k: int| 0 <= k < count implies f2[k] == f[k] by {}
                if cur_len > 1 {
                    assert(cur2[0] == cur[0]);
                }
            }
        }
        i = i + 1;
    }
    proof {
        assert(s.take(n as int) =~= s);
    }
    let last_valid = cur_digits && 1 <= cur_len && cur_len <= 3 && !(cur_len > 1 && cur_first_zero)
        && cur_val <= 255;
    if ok && count == 3 && last_valid {
        Some((vals[0], vals[1], vals[2], cur_val as u8))
    } else {
        None
    }
}

/// The /24 network of the IPv4 address written in `ip`, such as
/// "192.168.1.0/24", or "Unknown" where `ip` is no IPv4 address.
pub fn calculate_network_segment(ip: &str) -> (r: String)
    ensures
        r@ == network_segment_text(ip@),
{
    match parse_ipv4(ip) {
        Some((a, b, c, _)) => {
            let mut r = decimal_string(a as u128);
            r.append(".");
            r.append(decimal_string(b as u128).as_str());
            r.append(".");
            r.append(decimal_string(c as u128).as_str());
            r.append(".0/24");
            r
        },
        None => String::from_str("Unknown"),
    }
}

/// The name of the network interface that the panel reports.
pub fn get_primary_interface() -> (r: Option<String>)
    ensures
        r matches Some(name) && name@ == "en0"@,
{
    Some(String::from_str("en0"))
}

/// What the panel shows of the local network.
#[derive(Debug, Clone)]
pub struct NetworkInfo {
    pub local_ip: String,
    pub network_segment: String,
    pub interface_name: String,
}

/// The network information for the local address that a lookup found, if
/// any: "Unknown" stands for a missing address, and the segment is computed
/// from the address text shown.
pub fn network_info_from(local_ip: Option<String>) -> (info: NetworkInfo)
    ensures
        info.local_ip@ == (match local_ip {
            Some(ip) => ip@,
            None => "Unknown"@,
        }),
        info.network_segment@ == network_segment_text(info.local_ip@),
        info.interface_name@ == "en0"@,
{
    let local_ip = match local_ip {
        Some(ip) => ip,
        None => String::from_str("Unknown"),
    };
    let network_segment = calculate_network_segment(local_ip.as_str());
    let interface_name = match get_primary_interface() {
        Some(name) => name,
        None => String::from_str("Unknown"),
    };
    NetworkInfo { local_ip, network_segment, interface_name }
}

} // verus!
