//! The nav bar's link table and the rendering of its entries.
//!
//! A `LinkEntry` with no children renders as one direct link; one with
//! children renders as a hover group that exposes each child as a separate
//! link, in the order the table gives them.

use vstd::prelude::*;

verus! {

/// One link of a dropdown menu: display label and destination.
pub struct ChildLink {
    pub label: String,
    pub href: String,
}

/// Mathematical model of a child link.
#[verifier::ext_equal]
pub ghost struct ChildLinkModel {
    pub label: Seq<char>,
    pub href: Seq<char>,
}

impl View for ChildLink {
    type V = ChildLinkModel;

    open spec fn view(&self) -> ChildLinkModel {
        ChildLinkModel { label: self.label@, href: self.href@ }
    }
}

/// One entry of the nav's link table: a labelled destination with an
/// ordered (possibly empty) list of sub-links.
pub struct LinkEntry {
    pub label: String,
    pub href: String,
    pub children: Vec<ChildLink>,
}

/// Mathematical model of a link table entry.
#[verifier::ext_equal]
pub ghost struct LinkEntryModel {
    pub label: Seq<char>,
    pub href: Seq<char>,
    pub children: Seq<ChildLinkModel>,
}

impl View for LinkEntry {
    type V = LinkEntryModel;

    open spec fn view(&self) -> LinkEntryModel {
        LinkEntryModel {
            label: self.label@,
            href: self.href@,
            children: self.children@.map_values(|c: ChildLink| c@),
        }
    }
}

/// One rendered item of the nav's link list.
pub enum LinkItem {
    /// An entry without children: a single direct link.
    Direct { label: String, href: String },
    /// An entry with children: a hoverable group whose dropdown exposes each
    /// child as a separate link.
    Dropdown { label: String, entries: Vec<ChildLink> },
}

/// Mathematical model of a rendered link item.
#[verifier::ext_equal]
pub ghost enum LinkItemModel {
    Direct { label: Seq<char>, href: Seq<char> },
    Dropdown { label: Seq<char>, entries: Seq<ChildLinkModel> },
}

impl View for LinkItem {
    type V = LinkItemModel;

    open spec fn view(&self) -> LinkItemModel {
        match self {
            LinkItem::Direct { label, href } => LinkItemModel::Direct {
                label: label@,
                href: href@,
            },
            LinkItem::Dropdown { label, entries } => LinkItemModel::Dropdown {
                label: label@,
                entries: entries@.map_values(|c: ChildLink| c@),
            },
        }
    }
}

/// How one entry of the link table renders: a direct link when it has no
/// children, else a dropdown group over exactly its children.
pub open spec fn link_item_of(e: LinkEntryModel) -> LinkItemModel {
    if e.children.len() == 0 {
        LinkItemModel::Direct { label: e.label, href: e.href }
    } else {
        LinkItemModel::Dropdown { label: e.label, entries: e.children }
    }
}

/// How the whole link table renders: one item per entry, in table order.
pub open spec fn link_items_of(es: Seq<LinkEntryModel>) -> Seq<LinkItemModel> {
    es.map_values(|e: LinkEntryModel| link_item_of(e))
}

/// Law: an entry with no children renders as a single direct link to its own
/// destination; an entry with children renders as a hover group exposing
/// each child in input order — and nothing else.
pub proof fn lemma_link_entry_rendering(e: LinkEntryModel)
    ensures
        e.children.len() == 0 ==> link_item_of(e) == (LinkItemModel::Direct {
            label: e.label,
            href: e.href,
        }),
        e.children.len() > 0 ==> link_item_of(e) == (LinkItemModel::Dropdown {
            label: e.label,
            entries: e.children,
        }),
{
}

fn clone_children(children: &Vec<ChildLink>) -> (r: Vec<ChildLink>)
    ensures
        r@.map_values(|c: ChildLink| c@) == children@.map_values(|c: ChildLink| c@),
{
    let mut r: Vec<ChildLink> = Vec::new();
    let mut i: usize = 0;
    while i < children.len()
        invariant
            i <= children.len(),
            r@.len() == i,
            forall|j: int| 0 <= j < i ==> r@[j]@ == children@[j]@,
        decreases children.len() - i,
    {
        let c = &children[i];
        r.push(ChildLink { label: c.label.clone(), href: c.href.clone() });
        i += 1;
    }
    proof {
        assert(r@.map_values(|c: ChildLink| c@) =~= children@.map_values(|c: ChildLink| c@));
    }
    r
}

/// Renders the link table into the nav's list of link items, one per entry,
/// preserving the table's order.
pub fn render_link_list(entries: &Vec<LinkEntry>) -> (items: Vec<LinkItem>)
    ensures
        items@.map_values(|it: LinkItem| it@) == link_items_of(
            entries@.map_values(|e: LinkEntry| e@),
        ),
{
    let mut items: Vec<LinkItem> = Vec::new();
    let mut i: usize = 0;
    while i < entries.len()
        invariant
            i <= entries.len(),
            items@.len() == i,
            forall|j: int| 0 <= j < i ==> items@[j]@ == link_item_of(entries@[j]@),
        decreases entries.len() - i,
    {
        let e = &entries[i];
        if e.children.len() == 0 {
            items.push(LinkItem::Direct { label: e.label.clone(), href: e.href.clone() });
        } else {
            items.push(
                LinkItem::Dropdown { label: e.label.clone(), entries: clone_children(&e.children) },
            );
        }
        proof {
            assert(items@[i as int]@ == link_item_of(entries@[i as int]@));
        }
        i += 1;
    }
    proof {
        assert(items@.map_values(|it: LinkItem| it@) =~= link_items_of(
            entries@.map_values(|e: LinkEntry| e@),
        ));
    }
    items
}

/// The nav bar's static link table, defined once at startup and never
/// mutated: the docs, awesome and blog pages, none with a dropdown.
pub fn nav_links() -> (links: Vec<LinkEntry>)
    ensures
        links@.len() == 3,
        forall|i: int| 0 <= i < 3 ==> links@[i]@.children.len() == 0,
        links@[0]@.label == "Docs"@,
        links@[0]@.href == "/learn/0.4/"@,
        links@[1]@.label == "Awesome"@,
        links@[1]@.href == "/awesome"@,
        links@[2]@.label == "Blog"@,
        links@[2]@.href == "/blog"@,
{
    let mut links: Vec<LinkEntry> = Vec::new();
    links.push(
        LinkEntry {
            label: String::from_str("Docs"),
            href: String::from_str("/learn/0.4/"),
            children: Vec::new(),
        },
    );
    links.push(
        LinkEntry {
            label: String::from_str("Awesome"),
            href: String::from_str("/awesome"),
            children: Vec::new(),
        },
    );
    links.push(
        LinkEntry {
            label: String::from_str("Blog"),
            href: String::from_str("/blog"),
            children: Vec::new(),
        },
    );
    links
}

} // verus!
