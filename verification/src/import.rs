//! Importing an extracted Google Doc into local storage: links to stored
//! images replace the document's object references, and tab parents are
//! resolved to the ids the tabs were stored under.

use vstd::prelude::*;
use crate::doctabs::ExtractedTab;
use crate::gdocs::{GoogleDocsClient, GoogleOAuthConfig};
use crate::strmap::StringMap;
use crate::text::{push_char, push_str, to_owned_string};

verus! {

/// `s` with every occurrence of `from` replaced by `to`, scanning left to
/// right without overlaps (`str::replace` for a non-empty pattern).
pub open spec fn replace_all(s: Seq<char>, from: Seq<char>, to: Seq<char>) -> Seq<char>
    decreases s.len(),
{
    if s.len() == 0 || from.len() == 0 {
        s
    } else if from.len() <= s.len() && s.take(from.len() as int) == from {
        to + replace_all(s.skip(from.len() as int), from, to)
    } else {
        seq![s[0]] + replace_all(s.skip(1), from, to)
    }
}

/// Whether `pat` occurs in `s` at character position `i`.
fn matches_at(s: &str, n: usize, i: usize, pat: &str, m: usize) -> (r: bool)
    requires
        n == s@.len(),
        m == pat@.len(),
        i <= n,
    ensures
        r == (m <= n - i && s@.skip(i as int).take(m as int) == pat@),
{
    if m > n - i {
        return false;
    }
    let mut j: usize = 0;
    while j < m
        invariant
            n == s@.len(),
            m == pat@.len(),
            m <= n - i,
            j <= m,
            forall|k: int| 0 <= k < j ==> s@[i + k] == pat@[k],
        decreases m - j,
    {
        if s.get_char(i + j) != pat.get_char(j) {
            assert(s@.skip(i as int).take(m as int)[j as int] != pat@[j as int]);
            return false;
        }
        j = j + 1;
    }
    assert(s@.skip(i as int).take(m as int) =~= pat@);
    true
}

/// Replaces every occurrence of a non-empty pattern.
pub fn replace(s: &str, from: &str, to: &str) -> (r: String)
    requires
        from@.len() > 0,
    ensures
        r@ == replace_all(s@, from@, to@),
{
    let n = s.unicode_len();
    let m = from.unicode_len();
    let mut out = String::new();
    let mut i: usize = 0;
    proof {
        assert(s@.skip(0) =~= s@);
    }
    while i < n
        invariant
            n == s@.len(),
            m == from@.len(),
            m > 0,
            i <= n,
            out@ + replace_all(s@.skip(i as int), from@, to@) == replace_all(s@, from@, to@),
        decreases n - i,
    {
        let ghost rest = s@.skip(i as int);
        let ghost out0 = out@;
        if matches_at(s, n, i, from, m) {
            push_str(&mut out, to);
            proof {
                assert(rest.skip(m as int) =~= s@.skip(i + m));
                assert(replace_all(rest, from@, to@) == to@ + replace_all(rest.skip(m as int), from@, to@));
                assert(out@ + replace_all(s@.skip(i + m), from@, to@) =~= out0 + (to@ + replace_all(rest.skip(m as int), from@, to@)));
            }
            i = i + m;
        } else {
            let c = s.get_char(i);
            push_char(&mut out, c);
            proof {
                assert(rest[0] == c);
                assert(rest.skip(1) =~= s@.skip(i + 1));
                assert(replace_all(rest, from@, to@) == seq![c] + replace_all(rest.skip(1), from@, to@));
                assert(out@ + replace_all(s@.skip(i + 1), from@, to@) =~= out0 + (seq![c] + replace_all(rest.skip(1), from@, to@)));
            }
            i = i + 1;
        }
    }
    proof {
        assert(s@.skip(n as int) =~= Seq::<char>::empty());
        assert(out@ + Seq::<char>::empty() =~= out@);
    }
    out
}

/// The reference a document makes to an inline object.
pub open spec fn object_ref(object_id: Seq<char>) -> Seq<char> {
    "object:"@ + object_id
}

/// The link to a stored asset.
pub open spec fn asset_link(asset_id: Seq<char>) -> Seq<char> {
    "noema-asset://localhost/"@ + asset_id
}

/// The content with each image's object reference replaced by the link to
/// its stored asset, one image after another.
pub open spec fn rewrite_refs(content: Seq<char>, images: Seq<(String, String)>) -> Seq<char>
    decreases images.len(),
{
    if images.len() == 0 {
        content
    } else {
        replace_all(
            rewrite_refs(content, images.drop_last()),
            object_ref(images.last().0@),
            asset_link(images.last().1@),
        )
    }
}

/// Rewrites a tab's markdown so that `object:ID` references point to the
/// stored images (`images` pairs an object id with its asset id).
pub fn rewrite_object_refs(content: &str, images: &Vec<(String, String)>) -> (r: String)
    ensures
        r@ == rewrite_refs(content@, images@),
{
    let mut current = crate::text::to_owned_string(content);
    let n = images.len();
    let mut i: usize = 0;
    while i < n
        invariant
            n == images@.len(),
            i <= n,
            current@ == rewrite_refs(content@, images@.take(i as int)),
        decreases n - i,
    {
        let mut pat = String::new();
        push_str(&mut pat, "object:");
        push_str(&mut pat, images[i].0.as_str());
        let mut link = String::new();
        push_str(&mut link, "noema-asset://localhost/");
        push_str(&mut link, images[i].1.as_str());
        proof {
            assert(pat@ == object_ref(images@[i as int].0@));
            assert(link@ == asset_link(images@[i as int].1@));
            reveal_strlit("object:");
            assert(pat@.len() > 0);
            assert(images@.take(i + 1).drop_last() =~= images@.take(i as int));
            assert(images@.take(i + 1).last() == images@[i as int]);
        }
        current = replace(current.as_str(), pat.as_str(), link.as_str());
        i = i + 1;
    }
    assert(images@.take(n as int) =~= images@);
    current
}

/// The parent links to set once all tabs are stored: for each tab with a
/// parent, the stored ids of the tab and of its parent, when both are known.
pub open spec fn parent_links(tabs: Seq<ExtractedTab>, stored: Map<Seq<char>, String>) -> Seq<(String, String)>
    decreases tabs.len(),
{
    if tabs.len() == 0 {
        Seq::empty()
    } else {
        let prev = parent_links(tabs.drop_last(), stored);
        let t = tabs.last();
        match t.parent_tab_id {
            Some(p) => if stored.dom().contains(t.source_tab_id@) && stored.dom().contains(p@) {
                prev.push((stored[t.source_tab_id@], stored[p@]))
            } else {
                prev
            },
            None => prev,
        }
    }
}

/// The (tab, parent) pairs to store, given the ids the tabs were stored under.
pub fn resolve_parents(tabs: &Vec<ExtractedTab>, stored: &StringMap<String>) -> (r: Vec<(String, String)>)
    requires
        stored.wf(),
    ensures
        r@ == parent_links(tabs@, stored.view_map()),
{
    let mut out: Vec<(String, String)> = Vec::new();
    let n = tabs.len();
    let mut i: usize = 0;
    while i < n
        invariant
            n == tabs@.len(),
            i <= n,
            stored.wf(),
            out@ == parent_links(tabs@.take(i as int), stored.view_map()),
        decreases n - i,
    {
        proof {
            assert(tabs@.take(i + 1).drop_last() =~= tabs@.take(i as int));
            assert(tabs@.take(i + 1).last() == tabs@[i as int]);
        }
        let tab = &tabs[i];
        match &tab.parent_tab_id {
            Some(p) => {
                match (stored.get(&tab.source_tab_id), stored.get(p)) {
                    (Some(tab_id), Some(parent_id)) => {
                        out.push((tab_id.clone(), parent_id.clone()));
                    },
                    _ => {},
                }
            },
            None => {},
        }
        i = i + 1;
    }
    assert(tabs@.take(n as int) =~= tabs@);
    out
}

/// How an import begins.
pub enum ImportStart<D> {
    /// The document was imported before: it is returned as it is.
    Existing(D),
    /// The document is fetched with this client.
    Fetch(GoogleDocsClient),
    /// The import is refused with this message.
    Refused(String),
}

/// The first step of importing a Google Doc: a document already imported
/// from it (`existing`, what the store found for its id) is returned as it
/// is; otherwise the stored Google OAuth settings must exist (`Google OAuth
/// not configured`) and hold an access token (`Not authenticated with
/// Google. Please sign in first.`), and the document is fetched with a
/// client for that token.
pub fn import_start<D>(existing: Option<D>, config: Option<GoogleOAuthConfig>) -> (r: ImportStart<D>)
    ensures
        match existing {
            Some(d) => r == ImportStart::Existing(d),
            None => match config {
                None => r matches ImportStart::Refused(e) && e@ == "Google OAuth not configured"@,
                Some(c) => match c.access_token {
                    None => r matches ImportStart::Refused(e) && e@
                        == "Not authenticated with Google. Please sign in first."@,
                    Some(t) => r matches ImportStart::Fetch(cl) && cl.access_token() == t@,
                },
            },
        },
{
    match existing {
        Some(d) => ImportStart::Existing(d),
        None => match config {
            None => ImportStart::Refused(to_owned_string("Google OAuth not configured")),
            Some(c) => match c.create_client() {
                None => ImportStart::Refused(to_owned_string("Not authenticated with Google. Please sign in first.")),
                Some(cl) => ImportStart::Fetch(cl),
            },
        },
    }
}

} // verus!
