use vstd::prelude::*;
use crate::text::push_text;

verus! {

/// The sections of the portfolio site.
#[derive(Debug, Clone, Copy, PartialEq, Eq, Structural)]
pub enum ProfileUrl {
    About,
    Work,
    Projects,
    Contact,
}

pub open spec fn host_text(production_mode: bool) -> Seq<char> {
    if production_mode {
        "https://about.calum.run"@
    } else {
        "http://localhost:3000"@
    }
}

pub open spec fn tab_text(p: ProfileUrl) -> Seq<char> {
    match p {
        ProfileUrl::About => "About"@,
        ProfileUrl::Work => "Work"@,
        ProfileUrl::Projects => "Projects"@,
        ProfileUrl::Contact => "Contact"@,
    }
}

pub open spec fn url_text(p: ProfileUrl, production_mode: bool) -> Seq<char> {
    host_text(production_mode) + "/?tab="@ + tab_text(p)
}

/// The portfolio site's address: the public host in production, a local one
/// otherwise.
pub fn get_portfolio_host(production_mode: bool) -> (r: String)
    ensures
        r@ == host_text(production_mode),
{
    if production_mode {
        "https://about.calum.run".to_owned()
    } else {
        "http://localhost:3000".to_owned()
    }
}

impl ProfileUrl {
    fn tab(&self) -> (r: &'static str)
        ensures
            r@ == tab_text(*self),
    {
        match self {
            ProfileUrl::About => "About",
            ProfileUrl::Work => "Work",
            ProfileUrl::Projects => "Projects",
            ProfileUrl::Contact => "Contact",
        }
    }

    /// The address of this section: `<host>/?tab=<Section>`.
    pub fn as_url(&self, production_mode: bool) -> (r: String)
        ensures
            r@ == url_text(*self, production_mode),
    {
        let mut r = get_portfolio_host(production_mode);
        push_text(&mut r, "/?tab=");
        push_text(&mut r, self.tab());
        r
    }

    /// The section whose address, under either host, is exactly `url`.
    pub fn from_url(url: &str) -> (r: Option<ProfileUrl>)
        ensures
            match r {
                Some(p) => url@ == url_text(p, true) || url@ == url_text(p, false),
                None => forall|p: ProfileUrl, m: bool| url@ != url_text(p, m),
            },
    {
        let u = url.to_owned();
        let all = [ProfileUrl::About, ProfileUrl::Work, ProfileUrl::Projects, ProfileUrl::Contact];
        let mut i: usize = 0;
        while i < 4
            invariant
                i <= 4,
                u@ == url@,
                all@ == seq![ProfileUrl::About, ProfileUrl::Work, ProfileUrl::Projects, ProfileUrl::Contact],
                forall|j: int|
                    0 <= j < i ==> url@ != url_text(#[trigger] all@[j], true) && url@ != url_text(
                        all@[j],
                        false,
                    ),
            decreases 4 - i,
        {
            let p = all[i];
            if u == p.as_url(true) || u == p.as_url(false) {
                return Some(p);
            }
            i = i + 1;
        }
        assert forall|p: ProfileUrl, m: bool| url@ != url_text(p, m) by {
            if m {
                assert(url@ != url_text(p, true));
            } else {
                assert(url@ != url_text(p, false));
            }
            match p {
                ProfileUrl::About => assert(all@[0] == p),
                ProfileUrl::Work => assert(all@[1] == p),
                ProfileUrl::Projects => assert(all@[2] == p),
                ProfileUrl::Contact => assert(all@[3] == p),
            }
        }
        None
    }
}

/// The addresses of every section, in the order About, Work, Projects, Contact.
pub fn profile_urls(production_mode: bool) -> (r: Vec<String>)
    ensures
        r@.len() == 4,
        r@[0]@ == url_text(ProfileUrl::About, production_mode),
        r@[1]@ == url_text(ProfileUrl::Work, production_mode),
        r@[2]@ == url_text(ProfileUrl::Projects, production_mode),
        r@[3]@ == url_text(ProfileUrl::Contact, production_mode),
{
    let mut r: Vec<String> = Vec::new();
    r.push(ProfileUrl::About.as_url(production_mode));
    r.push(ProfileUrl::Work.as_url(production_mode));
    r.push(ProfileUrl::Projects.as_url(production_mode));
    r.push(ProfileUrl::Contact.as_url(production_mode));
    r
}

/// The arguments of the page-fetching tool: which section to fetch.
pub struct WebSearchArgs {
    pub url: ProfileUrl,
}

} // verus!
