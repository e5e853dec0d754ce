//! The tab tree of a Google Doc: the order in which tabs are extracted, their
//! parents and indices, the inline images they reference, and the assembled
//! extraction result.

use vstd::prelude::*;
use crate::b64::{base64_encode, encode_base64};
use crate::model::{clone_opt_string, opt_view};
use crate::strmap::StringMap;

verus! {

/// A tab as the Docs API describes it.
pub struct DocsTab {
    pub tab_id: String,
    pub title: String,
    /// Inline objects of the tab: object id and, for images, the content URI.
    pub inline_objects: Vec<(String, Option<String>)>,
    pub child_tabs: Vec<DocsTab>,
}

/// Where a tab goes in the extraction: its id, title, parent and index.
pub struct TabPlan {
    pub source_tab_id: String,
    pub title: String,
    pub parent_tab_id: Option<String>,
    pub tab_index: i32,
}

pub ghost struct TabPlanView {
    pub source_tab_id: Seq<char>,
    pub title: Seq<char>,
    pub parent_tab_id: Option<Seq<char>>,
    pub tab_index: int,
}

impl TabPlan {
    pub open spec fn view_plan(&self) -> TabPlanView {
        TabPlanView {
            source_tab_id: self.source_tab_id@,
            title: self.title@,
            parent_tab_id: opt_view(self.parent_tab_id),
            tab_index: self.tab_index as int,
        }
    }
}

/// Number of tabs in the forest.
pub open spec fn tab_count(tabs: Seq<DocsTab>) -> nat
    decreases tabs,
{
    if tabs.len() == 0 {
        0
    } else {
        1 + tab_count(tabs[0].child_tabs@) + tab_count(tabs.drop_first())
    }
}

/// Depth-first, parents before children: each tab, then its children (with
/// it as parent), then its later siblings; indices count up from `start`.
pub open spec fn plan_list(tabs: Seq<DocsTab>, parent: Option<Seq<char>>, start: int) -> Seq<TabPlanView>
    decreases tabs,
{
    if tabs.len() == 0 {
        Seq::empty()
    } else {
        let t = tabs[0];
        let own = TabPlanView { source_tab_id: t.tab_id@, title: t.title@, parent_tab_id: parent, tab_index: start };
        let kids = plan_list(t.child_tabs@, Some(t.tab_id@), start + 1);
        seq![own] + kids + plan_list(tabs.drop_first(), parent, start + 1 + kids.len())
    }
}

proof fn lemma_plan_len(tabs: Seq<DocsTab>, parent: Option<Seq<char>>, start: int)
    ensures
        plan_list(tabs, parent, start).len() == tab_count(tabs),
    decreases tabs,
{
    if tabs.len() > 0 {
        let t = tabs[0];
        lemma_plan_len(t.child_tabs@, Some(t.tab_id@), start + 1);
        lemma_plan_len(tabs.drop_first(), parent, start + 1 + tab_count(t.child_tabs@));
    }
}

proof fn lemma_count_parts(tabs: Seq<DocsTab>)
    requires
        tabs.len() > 0,
    ensures
        tab_count(tabs[0].child_tabs@) < tab_count(tabs),
        tab_count(tabs.drop_first()) < tab_count(tabs),
{
}

fn plan_into(
    tabs: &Vec<DocsTab>,
    parent: &Option<String>,
    index: &mut i32,
    out: &mut Vec<TabPlan>,
)
    requires
        *old(index) + tab_count(tabs@) <= i32::MAX,
        *old(index) >= 0,
    ensures
        final(out)@.map_values(|p: TabPlan| p.view_plan()) == old(out)@.map_values(|p: TabPlan| p.view_plan())
            + plan_list(
            tabs@,
            opt_view(*parent),
            *old(index) as int,
        ),
        *final(index) == *old(index) + tab_count(tabs@),
    decreases tabs@,
{
    let ghost pv = opt_view(*parent);
    let ghost start = *index as int;
    let ghost out0 = out@.map_values(|p: TabPlan| p.view_plan());
    let n = tabs.len();
    let mut i: usize = 0;
    proof {
        assert(tabs@.skip(0) =~= tabs@);
        lemma_plan_len(tabs@, pv, start);
    }
    while i < n
        invariant
            n == tabs@.len(),
            i <= n,
            0 <= start <= *index,
            start + tab_count(tabs@) <= i32::MAX,
            *index + tab_count(tabs@.skip(i as int)) == start + tab_count(tabs@),
            pv == opt_view(*parent),
            out0 + plan_list(tabs@, pv, start) == out@.map_values(|p: TabPlan| p.view_plan())
                + plan_list(tabs@.skip(i as int), pv, *index as int),
        decreases n - i,
    {
        let tab = &tabs[i];
        let ghost rest = tabs@.skip(i as int);
        proof {
            assert(rest[0] == tabs@[i as int]);
            assert(rest.drop_first() =~= tabs@.skip(i + 1));
            lemma_count_parts(rest);
            lemma_plan_len(tab.child_tabs@, Some(tab.tab_id@), *index + 1);
        }
        let ghost before = out@.map_values(|p: TabPlan| p.view_plan());
        let current = *index;
        *index = *index + 1;
        out.push(TabPlan {
            source_tab_id: tab.tab_id.clone(),
            title: tab.title.clone(),
            parent_tab_id: clone_opt_string(parent),
            tab_index: current,
        });
        proof {
            assert(out@.map_values(|p: TabPlan| p.view_plan()) =~= before.push(TabPlanView {
                source_tab_id: tab.tab_id@,
                title: tab.title@,
                parent_tab_id: pv,
                tab_index: current as int,
            }));
        }
        let child_parent = Some(tab.tab_id.clone());
        plan_into(&tab.child_tabs, &child_parent, index, out);
        proof {
            let kids = plan_list(tab.child_tabs@, Some(tab.tab_id@), current + 1);
            assert(plan_list(rest, pv, current as int) =~= seq![TabPlanView {
                source_tab_id: tab.tab_id@,
                title: tab.title@,
                parent_tab_id: pv,
                tab_index: current as int,
            }] + kids + plan_list(tabs@.skip(i + 1), pv, current + 1 + kids.len()));
        }
        i = i + 1;
    }
    proof {
        assert(tabs@.skip(n as int) =~= Seq::<DocsTab>::empty());
    }
}

/// The extraction order of a document's tabs, with parents and indices.
pub fn plan_tabs(tabs: &Vec<DocsTab>) -> (r: Vec<TabPlan>)
    requires
        tab_count(tabs@) <= i32::MAX,
    ensures
        r@.map_values(|p: TabPlan| p.view_plan()) == plan_list(tabs@, None, 0),
{
    let mut out: Vec<TabPlan> = Vec::new();
    let mut index: i32 = 0;
    let none: Option<String> = None;
    plan_into(tabs, &none, &mut index, &mut out);
    assert(out@.map_values(|p: TabPlan| p.view_plan()) =~= Seq::<TabPlanView>::empty() + plan_list(tabs@, None, 0));
    out
}

/// Tabs are numbered consecutively in extraction order, and every tab's
/// parent is either the parent the whole list hangs from or a tab extracted
/// before it; at the top level (no parent) parents always come first.
pub proof fn lemma_plan_order(tabs: Seq<DocsTab>, parent: Option<Seq<char>>, start: int)
    ensures
        forall|i: int| 0 <= i < plan_list(tabs, parent, start).len() ==> #[trigger] plan_list(
            tabs,
            parent,
            start,
        )[i].tab_index == start + i,
        forall|i: int| #![trigger plan_list(tabs, parent, start)[i]] 0 <= i < plan_list(tabs, parent, start).len() ==> (
        plan_list(tabs, parent, start)[i].parent_tab_id == parent || exists|j: int| 0 <= j < i && Some(
            #[trigger] plan_list(tabs, parent, start)[j].source_tab_id,
        ) == plan_list(tabs, parent, start)[i].parent_tab_id),
    decreases tabs,
{
    if tabs.len() > 0 {
        let t = tabs[0];
        let kids = plan_list(t.child_tabs@, Some(t.tab_id@), start + 1);
        let rest = plan_list(tabs.drop_first(), parent, start + 1 + kids.len());
        let all = plan_list(tabs, parent, start);
        lemma_plan_order(t.child_tabs@, Some(t.tab_id@), start + 1);
        lemma_plan_order(tabs.drop_first(), parent, start + 1 + kids.len());
        assert(all == seq![all[0]] + kids + rest);
        assert forall|i: int| 0 <= i < all.len() implies #[trigger] all[i].tab_index == start + i by {
            if 1 <= i < 1 + kids.len() {
                assert(all[i] == kids[i - 1]);
            } else if i >= 1 + kids.len() {
                assert(all[i] == rest[i - 1 - kids.len()]);
            }
        }
        assert forall|i: int| #![trigger all[i]] 0 <= i < all.len() implies (all[i].parent_tab_id == parent
            || exists|j: int| 0 <= j < i && Some(#[trigger] all[j].source_tab_id) == all[i].parent_tab_id) by {
            if 1 <= i < 1 + kids.len() {
                let k = i - 1;
                assert(all[i] == kids[k]);
                if kids[k].parent_tab_id == Some(t.tab_id@) {
                    assert(all[0].source_tab_id == t.tab_id@);
                    assert(Some(all[0].source_tab_id) == all[i].parent_tab_id);
                } else {
                    let j = choose|j: int| 0 <= j < k && Some(#[trigger] kids[j].source_tab_id) == kids[k].parent_tab_id;
                    assert(all[j + 1] == kids[j]);
                    assert(Some(all[j + 1].source_tab_id) == all[i].parent_tab_id);
                }
            } else if i >= 1 + kids.len() {
                let m = i - 1 - kids.len();
                assert(all[i] == rest[m]);
                if rest[m].parent_tab_id != parent {
                    let j = choose|j: int| 0 <= j < m && Some(#[trigger] rest[j].source_tab_id) == rest[m].parent_tab_id;
                    assert(all[j + 1 + kids.len()] == rest[j]);
                    assert(Some(all[j + 1 + kids.len()].source_tab_id) == all[i].parent_tab_id);
                }
            }
        }
    }
}

/// The image objects of one tab, as (object id, content URI), in order.
pub open spec fn own_images(objs: Seq<(String, Option<String>)>) -> Seq<(Seq<char>, Seq<char>)>
    decreases objs.len(),
{
    if objs.len() == 0 {
        Seq::empty()
    } else {
        match objs.last().1 {
            Some(uri) => own_images(objs.drop_last()).push((objs.last().0@, uri@)),
            None => own_images(objs.drop_last()),
        }
    }
}

/// The image objects of all tabs, each tab before its children, children
/// before later siblings.
pub open spec fn inline_images(tabs: Seq<DocsTab>) -> Seq<(Seq<char>, Seq<char>)>
    decreases tabs,
{
    if tabs.len() == 0 {
        Seq::empty()
    } else {
        own_images(tabs[0].inline_objects@) + inline_images(tabs[0].child_tabs@) + inline_images(
            tabs.drop_first(),
        )
    }
}

pub open spec fn pair_views(v: Seq<(String, String)>) -> Seq<(Seq<char>, Seq<char>)> {
    v.map_values(|p: (String, String)| (p.0@, p.1@))
}

fn collect_own(objs: &Vec<(String, Option<String>)>, out: &mut Vec<(String, String)>)
    ensures
        pair_views(final(out)@) == pair_views(old(out)@) + own_images(objs@),
{
    let n = objs.len();
    let mut i: usize = 0;
    while i < n
        invariant
            n == objs@.len(),
            i <= n,
            pair_views(out@) == pair_views(old(out)@) + own_images(objs@.take(i as int)),
        decreases n - i,
    {
        proof {
            assert(objs@.take(i + 1).drop_last() =~= objs@.take(i as int));
            assert(objs@.take(i + 1).last() == objs@[i as int]);
        }
        let ghost before = pair_views(out@);
        match &objs[i].1 {
            Some(uri) => {
                out.push((objs[i].0.clone(), uri.clone()));
                assert(pair_views(out@) =~= before.push((objs@[i as int].0@, uri@)));
            },
            None => {},
        }
        assert(pair_views(out@) =~= pair_views(old(out)@) + own_images(objs@.take(i + 1)));
        i = i + 1;
    }
    assert(objs@.take(n as int) =~= objs@);
}

fn collect_into(tabs: &Vec<DocsTab>, out: &mut Vec<(String, String)>)
    ensures
        pair_views(final(out)@) == pair_views(old(out)@) + inline_images(tabs@),
    decreases tabs@,
{
    let n = tabs.len();
    let mut i: usize = 0;
    proof {
        assert(tabs@.skip(0) =~= tabs@);
    }
    while i < n
        invariant
            n == tabs@.len(),
            i <= n,
            pair_views(old(out)@) + inline_images(tabs@) == pair_views(out@) + inline_images(
                tabs@.skip(i as int),
            ),
        decreases n - i,
    {
        let ghost rest = tabs@.skip(i as int);
        proof {
            assert(rest[0] == tabs@[i as int]);
            assert(rest.drop_first() =~= tabs@.skip(i + 1));
        }
        let ghost before = pair_views(out@);
        collect_own(&tabs[i].inline_objects, out);
        collect_into(&tabs[i].child_tabs, out);
        proof {
            assert(pair_views(out@) + inline_images(tabs@.skip(i + 1)) =~= before + inline_images(rest));
        }
        i = i + 1;
    }
    assert(tabs@.skip(n as int) =~= Seq::<DocsTab>::empty());
    assert(pair_views(out@) + Seq::<(Seq<char>, Seq<char>)>::empty() =~= pair_views(out@));
}

/// All image objects referenced by the tabs, with their content URIs.
pub fn collect_inline_images(tabs: &Vec<DocsTab>) -> (r: Vec<(String, String)>)
    ensures
        pair_views(r@) == inline_images(tabs@),
{
    let mut out: Vec<(String, String)> = Vec::new();
    collect_into(tabs, &mut out);
    assert(pair_views(out@) =~= inline_images(tabs@));
    out
}

/// A tab as extracted: its plan and its HTML content.
pub struct ExtractedTab {
    pub source_tab_id: String,
    pub title: String,
    pub icon: Option<String>,
    pub content_html: String,
    pub parent_tab_id: Option<String>,
    pub tab_index: i32,
}

impl ExtractedTab {
    /// The extracted tab for a plan entry and its exported HTML (Docs tabs have no icon).
    pub fn from_plan(plan: TabPlan, content_html: String) -> (r: Self)
        ensures
            r.source_tab_id == plan.source_tab_id,
            r.title == plan.title,
            r.icon is None,
            r.content_html == content_html,
            r.parent_tab_id == plan.parent_tab_id,
            r.tab_index == plan.tab_index,
    {
        ExtractedTab {
            source_tab_id: plan.source_tab_id,
            title: plan.title,
            icon: None,
            content_html,
            parent_tab_id: plan.parent_tab_id,
            tab_index: plan.tab_index,
        }
    }
}

/// An image fetched from a Google Doc.
pub struct ExtractedImage {
    pub object_id: String,
    pub data: Vec<u8>,
    pub mime_type: String,
}

/// A Google Doc with its tabs and images; `image_mapping` gives, for each
/// inline object id, the index of its image.
pub struct ExtractedDocument {
    pub doc_id: String,
    pub title: String,
    pub tabs: Vec<ExtractedTab>,
    pub image_mapping: StringMap<usize>,
    pub images: Vec<ExtractedImage>,
}

impl ExtractedDocument {
    /// Every mapped object id points at an image with that id.
    pub open spec fn mapping_consistent(&self) -> bool {
        &&& self.image_mapping.wf()
        &&& forall|k: Seq<char>| #[trigger] self.image_mapping.view_map().dom().contains(k) ==> {
            let i = self.image_mapping.view_map()[k];
            &&& i < self.images@.len()
            &&& self.images@[i as int].object_id@ == k
        }
    }

    pub fn new(doc_id: String, title: String, tabs: Vec<ExtractedTab>) -> (r: Self)
        ensures
            r.doc_id == doc_id,
            r.title == title,
            r.tabs == tabs,
            r.images@.len() == 0,
            r.image_mapping.view_map() == Map::<Seq<char>, usize>::empty(),
            r.mapping_consistent(),
    {
        ExtractedDocument { doc_id, title, tabs, image_mapping: StringMap::new(), images: Vec::new() }
    }

    /// Adds a fetched image and maps its object id to it.
    pub fn add_image(&mut self, image: ExtractedImage)
        requires
            old(self).mapping_consistent(),
        ensures
            final(self).mapping_consistent(),
            final(self).images@ == old(self).images@.push(image),
            final(self).image_mapping.view_map() == old(self).image_mapping.view_map().insert(
                image.object_id@,
                old(self).images@.len() as usize,
            ),
            final(self).tabs == old(self).tabs,
            final(self).doc_id == old(self).doc_id,
            final(self).title == old(self).title,
    {
        let idx = self.images.len();
        let id = image.object_id.clone();
        self.image_mapping.insert(id, idx);
        self.images.push(image);
        proof {
            assert forall|k: Seq<char>| #[trigger] self.image_mapping.view_map().dom().contains(k) implies {
                let i = self.image_mapping.view_map()[k];
                &&& i < self.images@.len()
                &&& self.images@[i as int].object_id@ == k
            } by {
                if k != image.object_id@ {
                    assert(old(self).image_mapping.view_map().dom().contains(k));
                }
            }
        }
    }
}

/// A tab in the `gdocs_extract` response.
pub struct TabResponse {
    pub source_tab_id: String,
    pub title: String,
    pub icon: Option<String>,
    pub content_html: String,
    pub parent_tab_id: Option<String>,
    pub tab_index: i32,
}

impl TabResponse {
    pub fn from_tab(tab: ExtractedTab) -> (r: Self)
        ensures
            r.source_tab_id == tab.source_tab_id,
            r.title == tab.title,
            r.icon == tab.icon,
            r.content_html == tab.content_html,
            r.parent_tab_id == tab.parent_tab_id,
            r.tab_index == tab.tab_index,
    {
        TabResponse {
            source_tab_id: tab.source_tab_id,
            title: tab.title,
            icon: tab.icon,
            content_html: tab.content_html,
            parent_tab_id: tab.parent_tab_id,
            tab_index: tab.tab_index,
        }
    }
}

/// An image in the `gdocs_extract` response, its bytes in base64.
pub struct ImageResponse {
    pub object_id: String,
    pub data_base64: String,
    pub mime_type: String,
}

impl ImageResponse {
    pub fn from_image(img: ExtractedImage) -> (r: Self)
        ensures
            r.object_id == img.object_id,
            r.data_base64@ == base64_encode(img.data@),
            r.mime_type == img.mime_type,
    {
        let data_base64 = encode_base64(img.data.as_slice());
        ImageResponse { object_id: img.object_id, data_base64, mime_type: img.mime_type }
    }
}

/// The `gdocs_extract` response: the raw tabs and base64 images.
pub struct ExtractResponse {
    pub doc_id: String,
    pub title: String,
    pub tabs: Vec<TabResponse>,
    pub images: Vec<ImageResponse>,
}

impl ExtractResponse {
    pub fn from_document(doc: ExtractedDocument) -> (r: Self)
        ensures
            r.doc_id == doc.doc_id,
            r.title == doc.title,
            r.tabs@.len() == doc.tabs@.len(),
            forall|i: int| 0 <= i < r.tabs@.len() ==> {
                &&& (#[trigger] r.tabs@[i]).source_tab_id == doc.tabs@[i].source_tab_id
                &&& r.tabs@[i].title == doc.tabs@[i].title
                &&& r.tabs@[i].icon == doc.tabs@[i].icon
                &&& r.tabs@[i].content_html == doc.tabs@[i].content_html
                &&& r.tabs@[i].parent_tab_id == doc.tabs@[i].parent_tab_id
                &&& r.tabs@[i].tab_index == doc.tabs@[i].tab_index
            },
            r.images@.len() == doc.images@.len(),
            forall|i: int| 0 <= i < r.images@.len() ==> {
                &&& (#[trigger] r.images@[i]).object_id == doc.images@[i].object_id
                &&& r.images@[i].data_base64@ == base64_encode(doc.images@[i].data@)
                &&& r.images@[i].mime_type == doc.images@[i].mime_type
            },
    {
        let ghost tabs0 = doc.tabs@;
        let ghost imgs0 = doc.images@;
        let mut rest_tabs = doc.tabs;
        let mut tabs: Vec<TabResponse> = Vec::new();
        while rest_tabs.len() > 0
            invariant
                tabs@.len() + rest_tabs@.len() == tabs0.len(),
                rest_tabs@ == tabs0.skip(tabs@.len() as int),
                forall|i: int| 0 <= i < tabs@.len() ==> {
                    &&& (#[trigger] tabs@[i]).source_tab_id == tabs0[i].source_tab_id
                    &&& tabs@[i].title == tabs0[i].title
                    &&& tabs@[i].icon == tabs0[i].icon
                    &&& tabs@[i].content_html == tabs0[i].content_html
                    &&& tabs@[i].parent_tab_id == tabs0[i].parent_tab_id
                    &&& tabs@[i].tab_index == tabs0[i].tab_index
                },
            decreases rest_tabs@.len(),
        {
            let k = tabs.len();
            let t = rest_tabs.remove(0);
            proof {
                assert(tabs0.skip(k + 1) =~= tabs0.skip(k as int).drop_first());
            }
            tabs.push(TabResponse::from_tab(t));
        }
        let mut rest_imgs = doc.images;
        let mut images: Vec<ImageResponse> = Vec::new();
        while rest_imgs.len() > 0
            invariant
                images@.len() + rest_imgs@.len() == imgs0.len(),
                rest_imgs@ == imgs0.skip(images@.len() as int),
                forall|i: int| 0 <= i < images@.len() ==> {
                    &&& (#[trigger] images@[i]).object_id == imgs0[i].object_id
                    &&& images@[i].data_base64@ == base64_encode(imgs0[i].data@)
                    &&& images@[i].mime_type == imgs0[i].mime_type
                },
            decreases rest_imgs@.len(),
        {
            let k = images.len();
            let im = rest_imgs.remove(0);
            proof {
                assert(imgs0.skip(k + 1) =~= imgs0.skip(k as int).drop_first());
            }
            images.push(ImageResponse::from_image(im));
        }
        ExtractResponse { doc_id: doc.doc_id, title: doc.title, tabs, images }
    }
}

/// Whether the forest holds a tab (at any depth) with this id and title.
pub open spec fn in_forest(tabs: Seq<DocsTab>, id: Seq<char>, title: Seq<char>) -> bool
    decreases tabs,
{
    if tabs.len() == 0 {
        false
    } else {
        ||| (tabs[0].tab_id@ == id && tabs[0].title@ == title)
        ||| in_forest(tabs[0].child_tabs@, id, title)
        ||| in_forest(tabs.drop_first(), id, title)
    }
}

/// Every planned tab carries the id and the title of a tab of the document
/// (the title is the tab's own, never made up or taken from its id), and
/// the first entry of a non-empty list is its first tab.
pub proof fn lemma_plan_titles(tabs: Seq<DocsTab>, parent: Option<Seq<char>>, start: int)
    ensures
        forall|i: int| 0 <= i < plan_list(tabs, parent, start).len() ==> in_forest(
            tabs,
            #[trigger] plan_list(tabs, parent, start)[i].source_tab_id,
            plan_list(tabs, parent, start)[i].title,
        ),
        tabs.len() > 0 ==> plan_list(tabs, parent, start)[0].source_tab_id == tabs[0].tab_id@
            && plan_list(tabs, parent, start)[0].title == tabs[0].title@,
    decreases tabs,
{
    if tabs.len() > 0 {
        let t = tabs[0];
        let kids = plan_list(t.child_tabs@, Some(t.tab_id@), start + 1);
        let rest = plan_list(tabs.drop_first(), parent, start + 1 + kids.len());
        lemma_plan_titles(t.child_tabs@, Some(t.tab_id@), start + 1);
        lemma_plan_titles(tabs.drop_first(), parent, start + 1 + kids.len());
        let own = TabPlanView { source_tab_id: t.tab_id@, title: t.title@, parent_tab_id: parent, tab_index: start };
        let all = plan_list(tabs, parent, start);
        assert(all == seq![own] + kids + rest);
        assert forall|i: int| 0 <= i < all.len() implies in_forest(
            tabs,
            #[trigger] all[i].source_tab_id,
            all[i].title,
        ) by {
            if i == 0 {
            } else if i < 1 + kids.len() {
                assert(all[i] == kids[i - 1]);
                assert(in_forest(t.child_tabs@, kids[i - 1].source_tab_id, kids[i - 1].title));
            } else {
                assert(all[i] == rest[i - 1 - kids.len()]);
                assert(in_forest(tabs.drop_first(), rest[i - 1 - kids.len()].source_tab_id, rest[i - 1 - kids.len()].title));
            }
        }
    }
}

} // verus!
