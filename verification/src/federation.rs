//! The federation resolver: a one-shot, cached map from logical wiki
//! identifiers to the sites that host them. The map is built once at startup
//! from a remote directory service and is read-only afterwards. A lookup
//! matches a wiki identifier against each site's canonical database name;
//! sites flagged closed or private are rejected even on an exact identifier
//! match, the synthetic "count" entry is skipped as non-data, and both the
//! "specials" category and the per-language categories are searched. The
//! first match in iteration order wins.

use vstd::prelude::*;

verus! {

/// One site of the federation: its canonical database name, the URL of the
/// server that hosts it, and whether it is flagged closed or private.
pub struct Site {
    pub dbname: String,
    pub url: String,
    pub closed: bool,
    pub private: bool,
}

/// One category of the federation directory: the synthetic "count" scalar
/// (skipped as non-data), the "specials" category, or one per-language
/// category.
pub enum FederationGroup {
    Count,
    Specials { sites: Vec<Site> },
    Language { sites: Vec<Site> },
}

/// The cached federation directory: every category in iteration order.
/// Built once during initialization, never refreshed.
pub struct SiteMatrix {
    pub groups: Vec<FederationGroup>,
}

/// Whether a site answers for `wiki`: its database name is exactly `wiki`
/// and it is neither closed nor private.
pub open spec fn site_matches(s: Site, wiki: Seq<char>) -> bool {
    &&& !s.closed
    &&& !s.private
    &&& s.dbname@ == wiki
}

/// The sites a category offers for lookup; the "count" entry offers none.
pub open spec fn group_sites(g: FederationGroup) -> Seq<Site> {
    match g {
        FederationGroup::Count => Seq::empty(),
        FederationGroup::Specials { sites } => sites@,
        FederationGroup::Language { sites } => sites@,
    }
}

/// The URL of the first site in `sites` that answers for `wiki`, if any.
pub open spec fn first_match_in_sites(sites: Seq<Site>, wiki: Seq<char>) -> Option<Seq<char>>
    decreases sites.len(),
{
    if sites.len() == 0 {
        None
    } else if site_matches(sites[0], wiki) {
        Some(sites[0].url@)
    } else {
        first_match_in_sites(sites.drop_first(), wiki)
    }
}

/// The URL resolved for `wiki` across all categories, in order: the first
/// category holding a matching site decides.
pub open spec fn resolve_in_groups(groups: Seq<FederationGroup>, wiki: Seq<char>) -> Option<
    Seq<char>,
>
    decreases groups.len(),
{
    if groups.len() == 0 {
        None
    } else {
        match first_match_in_sites(group_sites(groups[0]), wiki) {
            Some(url) => Some(url),
            None => resolve_in_groups(groups.drop_first(), wiki),
        }
    }
}

/// Whether `wiki` is served by the site matrix at all: some category holds a
/// site whose database name is `wiki` and which is neither closed nor
/// private.
pub open spec fn has_match(groups: Seq<FederationGroup>, wiki: Seq<char>) -> bool {
    exists|gi: int, si: int|
        0 <= gi < groups.len() && 0 <= si < group_sites(groups[gi]).len() && site_matches(
            group_sites(groups[gi])[si],
            wiki,
        )
}

/// The URL a site offers for `wiki`: its URL on a match — the identifier
/// equals the site's database name and the site is neither closed nor
/// private — and nothing otherwise.
pub fn get_url_for_wiki_from_site(wiki: &String, site: &Site) -> (r: Option<String>)
    ensures
        r is Some <==> site_matches(*site, wiki@),
        (r matches Some(u) ==> u@ == site.url@),
{
    if site.closed {
        return None;
    }
    if site.private {
        return None;
    }
    if site.dbname == *wiki {
        Some(site.url.clone())
    } else {
        None
    }
}

/// The URL of the first site in `sites` answering for `wiki`, if any.
fn first_match_url(sites: &Vec<Site>, wiki: &String) -> (r: Option<String>)
    ensures
        r is Some <==> first_match_in_sites(sites@, wiki@) is Some,
        (r matches Some(u) ==> first_match_in_sites(sites@, wiki@) == Some(u@)),
{
    let mut i: usize = 0;
    proof {
        assert(sites@.skip(0) =~= sites@);
    }
    while i < sites.len()
        invariant
            i <= sites@.len(),
            first_match_in_sites(sites@, wiki@) == first_match_in_sites(
                sites@.skip(i as int),
                wiki@,
            ),
        decreases sites@.len() - i,
    {
        proof {
            assert(sites@.skip(i as int)[0] == sites@[i as int]);
            assert(sites@.skip(i as int).drop_first() =~= sites@.skip(i + 1));
        }
        let m = get_url_for_wiki_from_site(wiki, &sites[i]);
        if m.is_some() {
            return m;
        }
        i = i + 1;
    }
    proof {
        assert(sites@.skip(sites@.len() as int) =~= Seq::<Site>::empty());
    }
    None
}

/// Resolves `wiki` against the cached site matrix: the URL of the first
/// matching open, public site, searched category by category with the
/// "count" entry skipped; nothing when no site matches.
pub fn resolve_url(matrix: &SiteMatrix, wiki: &String) -> (r: Option<String>)
    ensures
        r is Some <==> resolve_in_groups(matrix.groups@, wiki@) is Some,
        (r matches Some(u) ==> resolve_in_groups(matrix.groups@, wiki@) == Some(u@)),
{
    let groups = &matrix.groups;
    let mut i: usize = 0;
    proof {
        assert(groups@.skip(0) =~= groups@);
    }
    while i < groups.len()
        invariant
            i <= groups@.len(),
            groups == matrix.groups,
            resolve_in_groups(groups@, wiki@) == resolve_in_groups(groups@.skip(i as int), wiki@),
        decreases groups@.len() - i,
    {
        proof {
            assert(groups@.skip(i as int)[0] == groups@[i as int]);
            assert(groups@.skip(i as int).drop_first() =~= groups@.skip(i + 1));
        }
        let m = match &groups[i] {
            FederationGroup::Count => None,
            FederationGroup::Specials { sites } => first_match_url(sites, wiki),
            FederationGroup::Language { sites } => first_match_url(sites, wiki),
        };
        if m.is_some() {
            return m;
        }
        i = i + 1;
    }
    proof {
        assert(groups@.skip(groups@.len() as int) =~= Seq::<FederationGroup>::empty());
    }
    None
}

/// A matching site's URL for the site-list characterization below.
proof fn lemma_first_match_characterization(sites: Seq<Site>, wiki: Seq<char>)
    ensures
        first_match_in_sites(sites, wiki) is Some <==> exists|si: int|
            0 <= si < sites.len() && site_matches(sites[si], wiki),
        (first_match_in_sites(sites, wiki) matches Some(u) ==> exists|si: int|
            0 <= si < sites.len() && site_matches(sites[si], wiki) && u == sites[si].url@),
    decreases sites.len(),
{
    if sites.len() == 0 {
    } else if site_matches(sites[0], wiki) {
        assert(site_matches(sites[0], wiki));
    } else {
        lemma_first_match_characterization(sites.drop_first(), wiki);
        assert forall|si: int|
            0 <= si < sites.len() && site_matches(sites[si], wiki) implies exists|sj: int|
            0 <= sj < sites.drop_first().len() && site_matches(sites.drop_first()[sj], wiki) by {
            assert(sites.drop_first()[si - 1] == sites[si]);
        }
        if first_match_in_sites(sites, wiki) is Some {
            let u = first_match_in_sites(sites, wiki)->Some_0;
            let sj = choose|sj: int|
                0 <= sj < sites.drop_first().len() && site_matches(sites.drop_first()[sj], wiki)
                    && u == sites.drop_first()[sj].url@;
            assert(sites[sj + 1] == sites.drop_first()[sj]);
        }
    }
}

/// Law: a wiki identifier resolves to a URL exactly when some category of
/// the site matrix — the "count" entry offering no sites — holds a site
/// whose database name equals the identifier and which is neither closed nor
/// private; and the resolved URL is that of such a matching site. In
/// particular, a site flagged closed or private is never resolved even on an
/// exact identifier match, and an identifier matching no site resolves to
/// nothing.
pub proof fn lemma_resolve_characterization(groups: Seq<FederationGroup>, wiki: Seq<char>)
    ensures
        resolve_in_groups(groups, wiki) is Some <==> has_match(groups, wiki),
        (resolve_in_groups(groups, wiki) matches Some(u) ==> exists|gi: int, si: int|
            0 <= gi < groups.len() && 0 <= si < group_sites(groups[gi]).len() && site_matches(
                group_sites(groups[gi])[si],
                wiki,
            ) && u == group_sites(groups[gi])[si].url@),
    decreases groups.len(),
{
    if groups.len() == 0 {
    } else {
        lemma_first_match_characterization(group_sites(groups[0]), wiki);
        lemma_resolve_characterization(groups.drop_first(), wiki);
        let rest = groups.drop_first();
        if resolve_in_groups(groups, wiki) is Some {
            let u = resolve_in_groups(groups, wiki)->Some_0;
            if first_match_in_sites(group_sites(groups[0]), wiki) is Some {
                let si = choose|si: int|
                    0 <= si < group_sites(groups[0]).len() && site_matches(
                        group_sites(groups[0])[si],
                        wiki,
                    ) && u == group_sites(groups[0])[si].url@;
                assert(0 <= 0 < groups.len() && 0 <= si < group_sites(groups[0]).len()
                    && site_matches(group_sites(groups[0])[si], wiki) && u == group_sites(
                    groups[0],
                )[si].url@);
            } else {
                let (gj, sj) = choose|gj: int, sj: int|
                    0 <= gj < rest.len() && 0 <= sj < group_sites(rest[gj]).len() && site_matches(
                        group_sites(rest[gj])[sj],
                        wiki,
                    ) && u == group_sites(rest[gj])[sj].url@;
                assert(groups[gj + 1] == rest[gj]);
            }
        }
        if has_match(groups, wiki) {
            let (gi, si) = choose|gi: int, si: int|
                0 <= gi < groups.len() && 0 <= si < group_sites(groups[gi]).len() && site_matches(
                    group_sites(groups[gi])[si],
                    wiki,
                );
            if gi == 0 {
                assert(first_match_in_sites(group_sites(groups[0]), wiki) is Some);
            } else {
                assert(rest[gi - 1] == groups[gi]);
                assert(has_match(rest, wiki));
            }
        }
    }
}

/// Law: an identifier whose every exact-name match in the site matrix is
/// flagged closed or private resolves to nothing, the identifier match
/// notwithstanding.
pub proof fn lemma_closed_or_private_not_found(groups: Seq<FederationGroup>, wiki: Seq<char>)
    requires
        forall|gi: int, si: int|
            0 <= gi < groups.len() && 0 <= si < group_sites(groups[gi]).len() && group_sites(
                groups[gi],
            )[si].dbname@ == wiki ==> group_sites(groups[gi])[si].closed || group_sites(
                groups[gi],
            )[si].private,
    ensures
        resolve_in_groups(groups, wiki) is None,
{
    lemma_resolve_characterization(groups, wiki);
}

} // verus!
