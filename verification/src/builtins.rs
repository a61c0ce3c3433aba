//! The host-matching and time predicates a PAC script may call. Each is
//! pure: the two that PAC defines over the clock take the current weekday
//! as an argument, so that the caller owns the clock.
use vstd::prelude::*;
use crate::glob::glob_match;
use crate::glob::glob_matches;
use crate::text::chars_eq;
use crate::text::ends_with;
use crate::text::push_all;
use crate::text::seq_ends_with;
use crate::text::str_chars;
use crate::text::to_upper_vec;
use crate::text::upper_seq;

verus! {

/// `isPlainHostName(host)`: a host written without any dot.
pub fn is_plain_host_name(host: &str) -> (r: bool)
    ensures
        r == !host@.contains('.'),
{
    let v = str_chars(host);
    let mut i: usize = 0;
    while i < v.len()
        invariant
            i <= v@.len(),
            v@ == host@,
            forall|j: int| 0 <= j < i ==> v@[j] != '.',
        decreases v@.len() - i,
    {
        if v[i] == '.' {
            proof {
                assert(host@[i as int] == '.');
            }
            return false;
        }
        i += 1;
    }
    true
}

/// `dnsDomainIs(host, domain)`: the host ends with the domain, and the
/// match begins either at the start of the host or right after a dot.
pub open spec fn dns_domain_is_spec(host: Seq<char>, domain: Seq<char>) -> bool {
    seq_ends_with(host, domain) && (host.len() == domain.len() || host[host.len() - domain.len()
        - 1] == '.')
}

pub fn dns_domain_is(host: &str, domain: &str) -> (r: bool)
    ensures
        r == dns_domain_is_spec(host@, domain@),
{
    let h = str_chars(host);
    let d = str_chars(domain);
    if !ends_with(&h, &d) {
        return false;
    }
    if h.len() == d.len() {
        return true;
    }
    h[h.len() - d.len() - 1] == '.'
}

/// `localHostOrDomainIs(host, domain)`: the host is the domain itself or
/// any name under it.
pub open spec fn local_host_or_domain_is_spec(host: Seq<char>, domain: Seq<char>) -> bool {
    host == domain || seq_ends_with(host, seq!['.'] + domain)
}

pub fn local_host_or_domain_is(host: &str, domain: &str) -> (r: bool)
    ensures
        r == local_host_or_domain_is_spec(host@, domain@),
{
    let h = str_chars(host);
    let d = str_chars(domain);
    if chars_eq(&h, &d) {
        return true;
    }
    let mut dotted: Vec<char> = Vec::new();
    dotted.push('.');
    push_all(&mut dotted, &d);
    proof {
        assert(dotted@ =~= seq!['.'] + domain@);
    }
    ends_with(&h, &dotted)
}

/// `dnsDomainLevels(host)`: how many dots the host contains.
pub open spec fn count_char(s: Seq<char>, c: char) -> int
    decreases s.len(),
{
    if s.len() == 0 {
        0
    } else {
        count_char(s.drop_last(), c) + if s.last() == c {
            1int
        } else {
            0int
        }
    }
}

pub fn dns_domain_levels(host: &str) -> (r: usize)
    ensures
        r == count_char(host@, '.'),
{
    let v = str_chars(host);
    let mut cnt: usize = 0;
    let mut i: usize = 0;
    while i < v.len()
        invariant
            i <= v@.len(),
            v@ == host@,
            cnt <= i,
            cnt == count_char(host@.take(i as int), '.'),
        decreases v@.len() - i,
    {
        proof {
            let pfx = host@.take(i + 1);
            assert(pfx.drop_last() =~= host@.take(i as int));
            assert(pfx.last() == host@[i as int]);
        }
        if v[i] == '.' {
            cnt += 1;
        }
        i += 1;
    }
    proof {
        assert(host@.take(host@.len() as int) =~= host@);
    }
    cnt
}

/// `shExpMatch(text, pattern)`: anchored shell-glob matching.
pub fn sh_exp_match(text: &str, pattern: &str) -> (r: bool)
    ensures
        r == glob_match(text@, pattern@),
{
    let t = str_chars(text);
    let p = str_chars(pattern);
    glob_matches(&t, &p)
}

/// A day of the week, as the caller's clock reports it.
#[derive(Clone, Copy, Debug, PartialEq, Eq, Structural)]
pub enum Weekday {
    Sunday,
    Monday,
    Tuesday,
    Wednesday,
    Thursday,
    Friday,
    Saturday,
}

/// Position of a day in the fixed Sunday-first week.
pub open spec fn day_number(d: Weekday) -> int {
    match d {
        Weekday::Sunday => 0,
        Weekday::Monday => 1,
        Weekday::Tuesday => 2,
        Weekday::Wednesday => 3,
        Weekday::Thursday => 4,
        Weekday::Friday => 5,
        Weekday::Saturday => 6,
    }
}

/// The PAC spelling of a day.
pub open spec fn day_name(d: Weekday) -> Seq<char> {
    match d {
        Weekday::Sunday => "SUN"@,
        Weekday::Monday => "MON"@,
        Weekday::Tuesday => "TUE"@,
        Weekday::Wednesday => "WED"@,
        Weekday::Thursday => "THU"@,
        Weekday::Friday => "FRI"@,
        Weekday::Saturday => "SAT"@,
    }
}

/// The week position a PAC day name denotes; anything unrecognized counts
/// as the week's first day.
pub open spec fn day_index(s: Seq<char>) -> int {
    if s == "SUN"@ {
        0
    } else if s == "MON"@ {
        1
    } else if s == "TUE"@ {
        2
    } else if s == "WED"@ {
        3
    } else if s == "THU"@ {
        4
    } else if s == "FRI"@ {
        5
    } else if s == "SAT"@ {
        6
    } else {
        0
    }
}

/// `weekdayRange(day1[, day2][, gmt])`: the current day equals `day1`, or
/// lies in the inclusive range from `day1` to `day2`, wrapping past the end
/// of the week when `day1` stands after `day2`; a second argument of `GMT`
/// is accepted and ignored, and no timezone adjustment is made.
pub open spec fn weekday_range_spec(cur: Weekday, d1: Seq<char>, d2: Option<Seq<char>>) -> bool {
    let u1 = upper_seq(d1);
    let u2o = match d2 {
        Some(x) => if upper_seq(x) == "GMT"@ {
            None
        } else {
            Some(upper_seq(x))
        },
        None => None,
    };
    match u2o {
        None => u1 == day_name(cur),
        Some(u2) => if u1 == u2 {
            day_name(cur) == u1
        } else {
            let a = day_index(u1);
            let b = day_index(u2);
            let c = day_number(cur);
            if a <= b {
                a <= c && c <= b
            } else {
                c >= a || c <= b
            }
        },
    }
}

fn day_name_of(d: Weekday) -> (r: &'static str)
    ensures
        r@ == day_name(d),
{
    match d {
        Weekday::Sunday => "SUN",
        Weekday::Monday => "MON",
        Weekday::Tuesday => "TUE",
        Weekday::Wednesday => "WED",
        Weekday::Thursday => "THU",
        Weekday::Friday => "FRI",
        Weekday::Saturday => "SAT",
    }
}

fn day_number_of(d: Weekday) -> (r: usize)
    ensures
        r == day_number(d),
{
    match d {
        Weekday::Sunday => 0,
        Weekday::Monday => 1,
        Weekday::Tuesday => 2,
        Weekday::Wednesday => 3,
        Weekday::Thursday => 4,
        Weekday::Friday => 5,
        Weekday::Saturday => 6,
    }
}

fn day_index_of(v: &Vec<char>) -> (r: usize)
    ensures
        r == day_index(v@),
{
    if chars_eq(v, &str_chars("SUN")) {
        0
    } else if chars_eq(v, &str_chars("MON")) {
        1
    } else if chars_eq(v, &str_chars("TUE")) {
        2
    } else if chars_eq(v, &str_chars("WED")) {
        3
    } else if chars_eq(v, &str_chars("THU")) {
        4
    } else if chars_eq(v, &str_chars("FRI")) {
        5
    } else if chars_eq(v, &str_chars("SAT")) {
        6
    } else {
        0
    }
}

pub fn weekday_range(cur: Weekday, day1: &str, day2: Option<&str>) -> (r: bool)
    ensures
        r == weekday_range_spec(
            cur,
            day1@,
            match day2 {
                Some(d) => Some(d@),
                None => None,
            },
        ),
{
    let u1 = to_upper_vec(&str_chars(day1));
    let second: Option<Vec<char>> = match day2 {
        Some(d) => {
            let ud = to_upper_vec(&str_chars(d));
            if chars_eq(&ud, &str_chars("GMT")) {
                None
            } else {
                Some(ud)
            }
        },
        None => None,
    };
    match second {
        None => chars_eq(&u1, &str_chars(day_name_of(cur))),
        Some(u2) => {
            if chars_eq(&u1, &u2) {
                chars_eq(&str_chars(day_name_of(cur)), &u1)
            } else {
                let a = day_index_of(&u1);
                let b = day_index_of(&u2);
                let c = day_number_of(cur);
                if a <= b {
                    a <= c && c <= b
                } else {
                    c >= a || c <= b
                }
            }
        },
    }
}

/// PAC's `dateRange`: deliberately always true here, a documented
/// divergence from the PAC convention rather than a faithful evaluation.
pub fn date_range() -> (r: bool)
    ensures
        r,
{
    true
}

/// PAC's `timeRange`: deliberately always true, as `dateRange` is.
pub fn time_range() -> (r: bool)
    ensures
        r,
{
    true
}

} // verus!
