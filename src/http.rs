//! The addresses the forum is fetched from, and the `Referer` each image host expects.

use crate::text::{chars_of, concat_chars, eq_chars, string_of};
use vstd::prelude::*;

verus! {

/// The hosts whose requests get a `Referer` header.
#[derive(Clone, Copy, Debug, PartialEq, Eq, Structural)]
pub enum HostSite {
    Avatar,
    Preview,
    Image,
    Unknown,
}

pub open spec fn host_site_spec(host: Option<Seq<char>>) -> HostSite {
    match host {
        Some(h) => if h == "uc.javbus22.com"@ {
            HostSite::Avatar
        } else if h == "www.javbus.com"@ {
            HostSite::Preview
        } else if h == "forum.javcdn.cc"@ {
            HostSite::Image
        } else {
            HostSite::Unknown
        },
        None => HostSite::Unknown,
    }
}

impl HostSite {
    /// The kind of a request's host, where it has one.
    pub fn from_host(host: Option<&str>) -> (r: HostSite)
        ensures
            r == host_site_spec(
                match host {
                    Some(h) => Some(h@),
                    None => None,
                },
            ),
    {
        match host {
            Some(h) => {
                let h = chars_of(h);
                if eq_chars(&h, &chars_of("uc.javbus22.com")) {
                    HostSite::Avatar
                } else if eq_chars(&h, &chars_of("www.javbus.com")) {
                    HostSite::Preview
                } else if eq_chars(&h, &chars_of("forum.javcdn.cc")) {
                    HostSite::Image
                } else {
                    HostSite::Unknown
                }
            },
            None => HostSite::Unknown,
        }
    }

    /// The `Referer` that requests to such a host carry, if any.
    pub fn referer(&self) -> (r: Option<&'static str>)
        ensures
            *self == HostSite::Avatar ==> (r matches Some(s) && s@ == "https://www.javbus.com/"@),
            *self == HostSite::Preview ==> (r matches Some(s) && s@
                == "https://www.javbus.com/forum/forum.php"@),
            *self == HostSite::Image ==> (r matches Some(s) && s@ == "https://www.javbus.com/"@),
            *self == HostSite::Unknown ==> r is None,
    {
        match self {
            HostSite::Avatar => Some("https://www.javbus.com/"),
            HostSite::Preview => Some("https://www.javbus.com/forum/forum.php"),
            HostSite::Image => Some("https://www.javbus.com/"),
            HostSite::Unknown => None,
        }
    }
}

/// The decimal digits of `n`, without leading zeros.
pub open spec fn decimal(n: nat) -> Seq<char>
    decreases n,
{
    if n < 10 {
        seq![('0' as nat + n) as char]
    } else {
        decimal(n / 10).push(('0' as nat + n % 10) as char)
    }
}

proof fn lemma_decimal_digits(n: nat)
    ensures
        decimal(n).len() > 0,
        crate::text::all_digits(decimal(n)),
        crate::text::digits_value(decimal(n)) == n,
    decreases n,
{
    if n >= 10 {
        lemma_decimal_digits(n / 10);
        let d = decimal(n);
        assert(d.drop_last() =~= decimal(n / 10));
        assert forall|i: int| 0 <= i < d.len() implies crate::text::is_digit(#[trigger] d[i]) by {
            if i < d.len() - 1 {
                assert(d[i] == decimal(n / 10)[i]);
            }
        }
        assert(d.last() as nat == '0' as nat + n % 10);
        assert(n == (n / 10) * 10 + n % 10);
        assert(crate::text::digits_value(d) == crate::text::digits_value(d.drop_last()) * 10 + (
        d.last() as nat - '0' as nat) as nat);
        assert(crate::text::digits_value(d.drop_last()) == n / 10);
    } else {
        assert(decimal(n).drop_last() =~= Seq::<char>::empty());
        assert(decimal(n).last() as nat == '0' as nat + n);
        assert(crate::text::digits_value(decimal(n)) == crate::text::digits_value(
            decimal(n).drop_last(),
        ) * 10 + (decimal(n).last() as nat - '0' as nat) as nat);
        assert(crate::text::digits_value(Seq::<char>::empty()) == 0);
    }
}

/// A page number written into an address reads back as itself.
pub proof fn lemma_page_number_round_trip(n: u32)
    ensures
        crate::text::parse_u32_spec(decimal(n as nat)) == Some(n),
{
    lemma_decimal_digits(n as nat);
    assert(crate::text::is_digit(decimal(n as nat)[0]));
}

/// The decimal digits of `n`.
pub fn decimal_chars(n: u32) -> (r: Vec<char>)
    ensures
        r@ == decimal(n as nat),
    decreases n,
{
    let d = ((n % 10) as u8 + 48u8) as char;
    if n < 10 {
        let mut v: Vec<char> = Vec::new();
        v.push(d);
        assert(v@ =~= decimal(n as nat));
        v
    } else {
        let mut v = decimal_chars(n / 10);
        v.push(d);
        v
    }
}

/// The address of page `page` of the forum's thread listing.
pub fn listing_url(page: u32) -> (r: String)
    ensures
        r@ == "https://www.javbus.com/forum/forum.php?mod=forumdisplay&fid=2&page="@ + decimal(
            page as nat,
        ),
{
    let base = chars_of("https://www.javbus.com/forum/forum.php?mod=forumdisplay&fid=2&page=");
    string_of(&concat_chars(&base, &decimal_chars(page)))
}

/// The address of page `page` of the thread at `href`.
pub fn detail_url(href: &str, page: u32) -> (r: String)
    ensures
        r@ == href@ + "&page="@ + decimal(page as nat),
{
    let a = concat_chars(&chars_of(href), &chars_of("&page="));
    string_of(&concat_chars(&a, &decimal_chars(page)))
}

} // verus!
