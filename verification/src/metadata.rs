//! The book-metadata model and the services over it: extracting the
//! exercise mapping from a container definition, building the table of
//! contents, and indexing pages.  The JSON files themselves are read and
//! parsed by the shell, which hands these plain structures over.

use vstd::prelude::*;
use vstd::string::StrSliceExecFns;
use vstd::string::StringExecFns;

use crate::text::is_digit_char;
use crate::text::str_eq;
use crate::text::trim_leading;
use crate::text::trim_leading_str;

verus! {

/// A parsed book or container definition.
#[derive(Debug)]
pub struct BookDefinition {
    pub meta: DefinitionMeta,
    pub items: DefinitionItems,
    pub resources: DefinitionResources,
}

#[derive(Debug, Clone)]
pub struct DefinitionMeta {
    pub title: String,
    pub code: Option<String>,
    pub productcode: Option<String>,
}

#[derive(Debug)]
pub struct DefinitionItems {
    pub default: Vec<TocItem>,
}

/// One node of the definition's item tree.
#[derive(Debug)]
pub struct TocItem {
    pub name: String,
    pub item_type: String,
    pub resource: Option<String>,
    pub items: Option<Vec<TocItem>>,
    pub attribs: Option<TocItemAttribs>,
}

#[derive(Debug, Clone)]
pub struct TocItemAttribs {
    pub page_no: Option<String>,
    pub start_page_no: Option<String>,
    pub end_page_no: Option<String>,
}

/// The resources of a definition, keyed by resource identifier.
#[derive(Debug, Clone)]
pub struct DefinitionResources {
    pub generic: Vec<(String, GenericResource)>,
}

#[derive(Debug, Clone)]
pub struct GenericResource {
    pub sub_type: String,
    pub imgbook_unit: Option<ImgbookUnit>,
}

#[derive(Debug, Clone)]
pub struct ImgbookUnit {
    pub page_no: String,
    pub start_page_no: String,
    pub end_page_no: String,
}

/// The image-layout half of a book's metadata, as far as the library reads
/// it: the image folder and the page list.
#[derive(Debug, Clone)]
pub struct BookPaths {
    pub pagexl_lrg_img_folder: String,
}

#[derive(Debug, Clone)]
pub struct BookPages {
    pub page: Vec<PageInfo>,
}

#[derive(Debug, Clone)]
pub struct PageInfo {
    pub bgimage: String,
    pub pagelabel: String,
}

/// An audio hotspot on a page overlay.
#[derive(Debug, PartialEq)]
pub struct OverlayAudio {
    pub path: String,
    pub title: Option<String>,
}

impl Clone for OverlayAudio {
    fn clone(&self) -> (r: OverlayAudio)
        ensures
            r == *self,
    {
        OverlayAudio {
            path: self.path.clone(),
            title: match &self.title {
                Some(t) => Some(t.clone()),
                None => None,
            },
        }
    }
}

/// A page-jump hotspot on a page overlay.
#[derive(Debug, PartialEq)]
pub struct OverlayTargetPage {
    pub pagelabel: String,
}

impl Clone for OverlayTargetPage {
    fn clone(&self) -> (r: OverlayTargetPage)
        ensures
            r == *self,
    {
        OverlayTargetPage { pagelabel: self.pagelabel.clone() }
    }
}

/// One overlay hotspot; the geometry the reader draws with stays in the
/// shell, the library reads only the kind and the targets.
#[derive(Debug, PartialEq)]
pub struct OverlayItem {
    pub overlay_type: String,
    pub audio: Option<OverlayAudio>,
    pub page: Option<OverlayTargetPage>,
}

impl Clone for OverlayItem {
    fn clone(&self) -> (r: OverlayItem)
        ensures
            r == *self,
    {
        OverlayItem {
            overlay_type: self.overlay_type.clone(),
            audio: match &self.audio {
                Some(a) => Some(a.clone()),
                None => None,
            },
            page: match &self.page {
                Some(p) => Some(p.clone()),
                None => None,
            },
        }
    }
}

#[derive(Debug, PartialEq)]
pub struct OverlayPage {
    pub sno: i32,
    pub overlays: Vec<OverlayItem>,
}

#[derive(Debug, PartialEq)]
pub struct OverlayPages {
    pub page: Vec<OverlayPage>,
}

#[derive(Debug, PartialEq)]
pub struct OverlayConfig {
    pub pages: OverlayPages,
}

/// One exercise attached to a page.
#[derive(Debug, PartialEq)]
pub struct ExerciseInfo {
    pub name: String,
    pub resource_id: String,
}

impl Clone for ExerciseInfo {
    fn clone(&self) -> (r: ExerciseInfo)
        ensures
            r == *self,
    {
        ExerciseInfo { name: self.name.clone(), resource_id: self.resource_id.clone() }
    }
}

/// One node of the assembled table of contents.
#[derive(Debug)]
pub struct TocNode {
    pub title: String,
    pub key: String,
    pub start_page: Option<String>,
    pub end_page: Option<String>,
    pub audio_files: Option<Vec<OverlayAudio>>,
    pub children: Option<Vec<TocNode>>,
}

/// Everything the reader needs about one page.
#[derive(Debug, Clone)]
pub struct PageIndex {
    pub label: String,
    pub image_path: String,
    pub resource_id: Option<String>,
    pub exercises: Option<Vec<ExerciseInfo>>,
    pub overlays: Option<Vec<OverlayItem>>,
}

/// Whether a page tag stands at `i` in `s`: the letter P followed by three
/// digits.
pub open spec fn page_tag_at(s: Seq<char>, i: int) -> bool {
    &&& 0 <= i
    &&& i + 4 <= s.len()
    &&& s[i] == 'P'
    &&& is_digit_char(s[i + 1])
    &&& is_digit_char(s[i + 2])
    &&& is_digit_char(s[i + 3])
}

/// The page label named by three digits: the digits with leading zeros
/// dropped, or "0" where nothing remains.
pub open spec fn label_of_digits(d: Seq<char>) -> Seq<char> {
    if trim_leading(d, '0').len() == 0 {
        seq!['0']
    } else {
        trim_leading(d, '0')
    }
}

/// The label of the leftmost page tag at or after `i`, where one exists.
pub open spec fn spec_page_label_from(s: Seq<char>, i: int) -> Option<Seq<char>>
    decreases s.len() - i,
{
    if i < 0 || i + 4 > s.len() {
        None
    } else if page_tag_at(s, i) {
        Some(label_of_digits(s.subrange(i + 1, i + 4)))
    } else {
        spec_page_label_from(s, i + 1)
    }
}

/// The page label encoded in a resource name: the digits of its leftmost
/// page tag, leading zeros dropped.
pub open spec fn spec_page_label(s: Seq<char>) -> Option<Seq<char>> {
    spec_page_label_from(s, 0)
}

/// The grouped exercise mapping and the table-of-contents builder.
pub struct MetadataService;

impl MetadataService {
    /// Finds the page label a resource name points at: the three digits of
    /// the leftmost "P###" tag, with leading zeros dropped and an all-zero
    /// tag reading as page "0".
    pub fn extract_page_label_from_name(name: &str) -> (r: Option<String>)
        ensures
            match r {
                Some(l) => spec_page_label(name@) == Some(l@),
                None => spec_page_label(name@) is None,
            },
    {
        let n = name.unicode_len();
        if n < 4 {
            return None;
        }
        let mut i: usize = 0;
        while i <= n - 4
            invariant
                4 <= n == name@.len(),
                0 <= i <= n - 3,
                spec_page_label(name@) == spec_page_label_from(name@, i as int),
            decreases n - i,
        {
            let is_tag = name.get_char(i) == 'P' && Self::digit_at(name, i + 1)
                && Self::digit_at(name, i + 2) && Self::digit_at(name, i + 3);
            if is_tag {
                let digits = name.substring_char(i + 1, i + 4);
                let trimmed = trim_leading_str(digits, '0');
                if trimmed.unicode_len() == 0 {
                    proof {
                        reveal_strlit("0");
                        assert("0"@ =~= seq!['0']);
                    }
                    return Some(String::from_str("0"));
                }
                return Some(trimmed.to_owned());
            }
            proof {
                assert(!page_tag_at(name@, i as int));
            }
            i = i + 1;
        }
        None
    }

    /// Whether the character at `i` is an ASCII digit.
    fn digit_at(s: &str, i: usize) -> (r: bool)
        requires
            i < s@.len(),
        ensures
            r == is_digit_char(s@[i as int]),
    {
        let c = s.get_char(i) as u32;
        48 <= c && c <= 57
    }

    /// Walks the item tree and appends one entry per item that names a
    /// resource and whose name carries a page tag, in traversal order.
    pub fn recursive_extract_exercises(
        items: &Vec<TocItem>,
        out: &mut Vec<(String, ExerciseInfo)>,
    )
        ensures
            entries_view(final(out)@) == entries_view(old(out)@) + spec_exercise_entries(
                items@,
            ),
        decreases items@,
    {
        let n = items.len();
        let mut i: usize = 0;
        proof {
            assert(items@.subrange(0, n as int) =~= items@);
            assert(entries_view(out@) + spec_exercise_entries(items@.subrange(0, n as int))
                =~~= entries_view(old(out)@) + spec_exercise_entries(items@));
        }
        while i < n
            invariant
                n == items@.len(),
                0 <= i <= n,
                entries_view(out@) + spec_exercise_entries(items@.subrange(i as int, n as int))
                    == entries_view(old(out)@) + spec_exercise_entries(items@),
            decreases n - i,
        {
            let ghost suffix = items@.subrange(i as int, n as int);
            proof {
                assert(suffix[0] == items@[i as int]);
                assert(suffix.drop_first() =~= items@.subrange(i as int + 1, n as int));
            }
            let item = &items[i];
            let ghost before = entries_view(out@);
            match &item.resource {
                Some(res_id) => {
                    match Self::extract_page_label_from_name(item.name.as_str()) {
                        Some(label) => {
                            let info = ExerciseInfo {
                                name: item.name.clone(),
                                resource_id: res_id.clone(),
                            };
                            out.push((label, info));
                            proof {
                                assert(entries_view(out@) =~~= before + own_entries(
                                    items@[i as int],
                                ));
                            }
                        },
                        None => {
                            proof {
                                assert(own_entries(items@[i as int]) =~~= Seq::<
                                    ExerciseEntry,
                                >::empty());
                            }
                        },
                    }
                },
                None => {},
            }
            let ghost mid = entries_view(out@);
            match &item.items {
                Some(sub) => {
                    proof {
                        assert(decreases_to!(items@ => items@[i as int]));
                    }
                    Self::recursive_extract_exercises(sub, out);
                },
                None => {},
            }
            proof {
                assert(entries_view(out@) =~~= mid + sub_entries(items@[i as int]));
                assert(spec_exercise_entries(suffix) =~~= own_entries(items@[i as int])
                    + sub_entries(items@[i as int]) + spec_exercise_entries(
                    items@.subrange(i as int + 1, n as int),
                ));
                assert(entries_view(out@) + spec_exercise_entries(
                    items@.subrange(i as int + 1, n as int),
                ) =~~= entries_view(old(out)@) + spec_exercise_entries(items@));
            }
            i = i + 1;
        }
        proof {
            assert(items@.subrange(n as int, n as int) =~= Seq::<TocItem>::empty());
            assert(entries_view(out@) =~~= entries_view(old(out)@) + spec_exercise_entries(
                items@,
            ));
        }
    }

    /// Groups the exercises of a container definition by the page label
    /// their names carry.  Each page label appears once, in order of first
    /// occurrence, and carries every matching exercise in traversal order.
    pub fn build_exercise_mapping(container_definition: &BookDefinition) -> (r: Vec<
        (String, Vec<ExerciseInfo>),
    >)
        ensures
            ({
                let flat = spec_exercise_entries(container_definition.items.default@);
                &&& forall|k1: int, k2: int|
                    0 <= k1 < k2 < r@.len() ==> (#[trigger] r@[k1]).0@ != (#[trigger] r@[k2]).0@
                &&& forall|k: int|
                    0 <= k < r@.len() ==> infos_with_label((#[trigger] r@[k]).0@, r@[k].1@)
                        == spec_bucket_of(flat, r@[k].0@)
                &&& forall|k: int| 0 <= k < r@.len() ==> (#[trigger] r@[k]).1@.len() > 0
                &&& forall|label: Seq<char>|
                    #[trigger] spec_bucket_of(flat, label).len() > 0 ==> exists|k: int|
                        0 <= k < r@.len() && (#[trigger] r@[k]).0@ == label
            }),
    {
        let mut flat: Vec<(String, ExerciseInfo)> = Vec::new();
        Self::recursive_extract_exercises(&container_definition.items.default, &mut flat);
        group_entries(&flat)
    }

    /// Builds the table of contents of a definition: one node per item,
    /// titled by the item, keyed by its resource (or a fresh key), spanning
    /// its page range, and carrying the audios of those pages where an
    /// overlay configuration is at hand.
    pub fn parse_toc(definition: &BookDefinition, overlay_config: Option<&OverlayConfig>) -> (r:
        Vec<TocNode>)
        ensures
            match overlay_config {
                Some(c) => toc_forest_matches(
                    definition.items.default@,
                    r@,
                    definition.resources.generic@,
                    c.pages.page@,
                ),
                None => toc_forest_matches(
                    definition.items.default@,
                    r@,
                    definition.resources.generic@,
                    Seq::<OverlayPage>::empty(),
                ),
            },
    {
        match overlay_config {
            Some(c) => Self::recursive_parse_toc(
                &definition.items.default,
                &definition.resources.generic,
                &c.pages.page,
            ),
            None => {
                let no_pages: Vec<OverlayPage> = Vec::new();
                let r = Self::recursive_parse_toc(
                    &definition.items.default,
                    &definition.resources.generic,
                    &no_pages,
                );
                proof {
                    assert(no_pages@ =~= Seq::<OverlayPage>::empty());
                }
                r
            },
        }
    }

    /// Assembles the nodes of one item forest.
    fn recursive_parse_toc(
        items: &Vec<TocItem>,
        resources: &Vec<(String, GenericResource)>,
        pages: &Vec<OverlayPage>,
    ) -> (r: Vec<TocNode>)
        ensures
            toc_forest_matches(items@, r@, resources@, pages@),
        decreases items@,
    {
        let n = items.len();
        let mut out: Vec<TocNode> = Vec::new();
        let mut i: usize = 0;
        while i < n
            invariant
                n == items@.len(),
                0 <= i <= n,
                out@.len() == i,
                forall|k: int|
                    0 <= k < i ==> toc_node_matches(
                        #[trigger] items@[k],
                        out@[k],
                        resources@,
                        pages@,
                    ),
            decreases n - i,
        {
            let item = &items[i];
            let key = match &item.resource {
                Some(rid) => rid.clone(),
                None => fresh_node_key(),
            };
            let (start_page, end_page) = Self::item_pages(item, resources);
            let audio_files = Self::node_audios(&start_page, &end_page, pages);
            let children = match &item.items {
                Some(sub) => {
                    if sub.len() > 0 {
                        proof {
                            assert(decreases_to!(items@ => items@[i as int]));
                        }
                        Some(Self::recursive_parse_toc(sub, resources, pages))
                    } else {
                        None
                    }
                },
                None => None,
            };
            let node = TocNode {
                title: item.name.clone(),
                key,
                start_page,
                end_page,
                audio_files,
                children,
            };
            out.push(node);
            proof {
                assert(toc_node_matches(items@[i as int], out@[i as int], resources@, pages@));
            }
            i = i + 1;
        }
        out
    }

    /// The page range of one item, as `spec_item_pages` says.
    fn item_pages(item: &TocItem, resources: &Vec<(String, GenericResource)>) -> (r: (
        Option<String>,
        Option<String>,
    ))
        ensures
            opt_string_view(r.0) == spec_item_pages(*item, resources@).0,
            opt_string_view(r.1) == spec_item_pages(*item, resources@).1,
    {
        match &item.resource {
            Some(rid) => {
                match resource_lookup(resources, rid.as_str()) {
                    Some(res) => match &res.imgbook_unit {
                        Some(unit) => (
                            Some(unit.start_page_no.clone()),
                            Some(unit.end_page_no.clone()),
                        ),
                        None => (None, None),
                    },
                    None => (None, None),
                }
            },
            None => {
                match &item.attribs {
                    Some(attribs) => {
                        let start = match &attribs.start_page_no {
                            Some(s) => Some(s.clone()),
                            None => match &attribs.page_no {
                                Some(p) => Some(p.clone()),
                                None => None,
                            },
                        };
                        let end = match &attribs.end_page_no {
                            Some(e) => Some(e.clone()),
                            None => match &attribs.page_no {
                                Some(p) => Some(p.clone()),
                                None => None,
                            },
                        };
                        (start, end)
                    },
                    None => (None, None),
                }
            },
        }
    }

    /// Indexes the pages of a book: one entry per page, in page order,
    /// keyed by the page label.  A reader that looks labels up from the
    /// back sees the same entry the page list names last.
    pub fn build_page_index(
        definition: &BookDefinition,
        paths: &BookPaths,
        pages: &BookPages,
        exercise_mapping: Option<&Vec<(String, Vec<ExerciseInfo>)>>,
        overlay_config: Option<&OverlayConfig>,
    ) -> (r: Vec<(String, PageIndex)>)
        requires
            pages.page@.len() < 0x8000_0000,
        ensures
            r@.len() == pages.page@.len(),
            forall|k: int|
                0 <= k < r@.len() ==> page_entry_matches(
                    #[trigger] pages.page@[k],
                    k + 1,
                    r@[k],
                    paths.pagexl_lrg_img_folder@,
                    definition.resources.generic@,
                    match exercise_mapping {
                        Some(m) => Some(m@),
                        None => None,
                    },
                    match overlay_config {
                        Some(c) => c.pages.page@,
                        None => Seq::<OverlayPage>::empty(),
                    },
                ),
    {
        let no_pages: Vec<OverlayPage> = Vec::new();
        let overlay_pages: &Vec<OverlayPage> = match overlay_config {
            Some(c) => &c.pages.page,
            None => &no_pages,
        };
        proof {
            assert(no_pages@ =~= Seq::<OverlayPage>::empty());
        }
        let n = pages.page.len();
        let mut out: Vec<(String, PageIndex)> = Vec::new();
        let mut i: usize = 0;
        while i < n
            invariant
                n == pages.page@.len(),
                n < 0x8000_0000,
                0 <= i <= n,
                out@.len() == i,
                overlay_pages@ == match overlay_config {
                    Some(c) => c.pages.page@,
                    None => Seq::<OverlayPage>::empty(),
                },
                forall|k: int|
                    0 <= k < i ==> page_entry_matches(
                        #[trigger] pages.page@[k],
                        k + 1,
                        out@[k],
                        paths.pagexl_lrg_img_folder@,
                        definition.resources.generic@,
                        match exercise_mapping {
                            Some(m) => Some(m@),
                            None => None,
                        },
                        match overlay_config {
                            Some(c) => c.pages.page@,
                            None => Seq::<OverlayPage>::empty(),
                        },
                    ),
            decreases n - i,
        {
            let p = &pages.page[i];
            let sno = (i + 1) as i32;
            let mut image_path = paths.pagexl_lrg_img_folder.clone();
            image_path.append(p.bgimage.as_str());
            let resource_id = page_resource_lookup(
                &definition.resources.generic,
                p.pagelabel.as_str(),
            );
            let exercises = match exercise_mapping {
                Some(m) => mapping_lookup(m, p.pagelabel.as_str()),
                None => None,
            };
            let overlays = overlays_lookup(overlay_pages, sno);
            let entry = PageIndex {
                label: p.pagelabel.clone(),
                image_path,
                resource_id,
                exercises,
                overlays,
            };
            out.push((p.pagelabel.clone(), entry));
            proof {
                assert(page_entry_matches(
                    pages.page@[i as int],
                    i as int + 1,
                    out@[i as int],
                    paths.pagexl_lrg_img_folder@,
                    definition.resources.generic@,
                    match exercise_mapping {
                        Some(m) => Some(m@),
                        None => None,
                    },
                    match overlay_config {
                        Some(c) => c.pages.page@,
                        None => Seq::<OverlayPage>::empty(),
                    },
                ));
            }
            i = i + 1;
        }
        out
    }

    /// The audio list of one node, as `spec_node_audios` says.
    fn node_audios(
        start_page: &Option<String>,
        end_page: &Option<String>,
        pages: &Vec<OverlayPage>,
    ) -> (r: Option<Vec<OverlayAudio>>)
        ensures
            match spec_node_audios(
                opt_string_view(*start_page),
                opt_string_view(*end_page),
                pages@,
            ) {
                Some(audios) => r matches Some(af) && af@ == audios,
                None => r is None,
            },
    {
        match (start_page, end_page) {
            (Some(s), Some(e)) => {
                match (crate::text::parse_i32(s.as_str()), crate::text::parse_i32(e.as_str())) {
                    (Some(si), Some(ei)) => {
                        let audios = range_audios(pages, si, ei);
                        if audios.len() > 0 {
                            Some(audios)
                        } else {
                            None
                        }
                    },
                    _ => None,
                }
            },
            _ => None,
        }
    }
}

/// The ghost image of one flat exercise entry: the page label it files
/// under and the exercise itself.
#[verifier::ext_equal]
pub struct ExerciseEntry {
    pub label: Seq<char>,
    pub name: Seq<char>,
    pub resource_id: Seq<char>,
}

/// The ghost image of one collected pair.
pub open spec fn entry_view(p: (String, ExerciseInfo)) -> ExerciseEntry {
    ExerciseEntry { label: p.0@, name: p.1.name@, resource_id: p.1.resource_id@ }
}

/// The ghost image of a collected list.
pub open spec fn entries_view(ps: Seq<(String, ExerciseInfo)>) -> Seq<ExerciseEntry> {
    ps.map_values(|p: (String, ExerciseInfo)| entry_view(p))
}

/// The entry an item itself contributes: one, where it names a resource
/// and its name carries a page tag.
pub open spec fn own_entries(item: TocItem) -> Seq<ExerciseEntry> {
    match item.resource {
        Some(rid) => match spec_page_label(item.name@) {
            Some(lbl) => seq![
                ExerciseEntry { label: lbl, name: item.name@, resource_id: rid@ },
            ],
            None => Seq::empty(),
        },
        None => Seq::empty(),
    }
}

/// The entries an item's subtree contributes, its own excluded.
pub open spec fn sub_entries(item: TocItem) -> Seq<ExerciseEntry>
    decreases item,
{
    match item.items {
        Some(sub) => spec_exercise_entries(sub@),
        None => Seq::empty(),
    }
}

/// Every exercise entry of an item forest, in traversal order: each item's
/// own entry, then its subtree's, then its right siblings'.
pub open spec fn spec_exercise_entries(items: Seq<TocItem>) -> Seq<ExerciseEntry>
    decreases items,
{
    if items.len() == 0 {
        Seq::empty()
    } else {
        own_entries(items[0]) + sub_entries(items[0]) + spec_exercise_entries(items.drop_first())
    }
}

/// The entries of a flat list that file under `label`, in order.
pub open spec fn spec_bucket_of(entries: Seq<ExerciseEntry>, label: Seq<char>) -> Seq<
    ExerciseEntry,
>
    decreases entries.len(),
{
    if entries.len() == 0 {
        Seq::empty()
    } else {
        (if entries[0].label == label {
            seq![entries[0]]
        } else {
            Seq::empty()
        }) + spec_bucket_of(entries.drop_first(), label)
    }
}

/// The exercises of one bucket, viewed as entries under its label.
pub open spec fn infos_with_label(label: Seq<char>, infos: Seq<ExerciseInfo>) -> Seq<
    ExerciseEntry,
> {
    infos.map_values(
        |e: ExerciseInfo| ExerciseEntry { label: label, name: e.name@, resource_id: e.resource_id@ },
    )
}

/// Whether the grouped list already carries `label` as a key.
fn has_key(grouped: &Vec<(String, Vec<ExerciseInfo>)>, label: &str) -> (r: bool)
    ensures
        r == exists|k: int| 0 <= k < grouped@.len() && (#[trigger] grouped@[k]).0@ == label@,
{
    let n = grouped.len();
    let mut i: usize = 0;
    while i < n
        invariant
            n == grouped@.len(),
            0 <= i <= n,
            forall|k: int| 0 <= k < i ==> (#[trigger] grouped@[k]).0@ != label@,
        decreases n - i,
    {
        if str_eq(grouped[i].0.as_str(), label) {
            return true;
        }
        i = i + 1;
    }
    false
}

/// Collects every exercise of the flat list that files under `label`, in
/// order.
fn collect_label(flat: &Vec<(String, ExerciseInfo)>, label: &str) -> (r: Vec<ExerciseInfo>)
    ensures
        infos_with_label(label@, r@) == spec_bucket_of(entries_view(flat@), label@),
{
    let n = flat.len();
    let mut out: Vec<ExerciseInfo> = Vec::new();
    let mut i: usize = 0;
    proof {
        assert(entries_view(flat@.subrange(0, n as int)) =~~= entries_view(flat@));
        assert(infos_with_label(label@, out@) + spec_bucket_of(
            entries_view(flat@.subrange(0, n as int)),
            label@,
        ) =~~= spec_bucket_of(entries_view(flat@), label@));
    }
    while i < n
        invariant
            n == flat@.len(),
            0 <= i <= n,
            spec_bucket_of(entries_view(flat@), label@) == infos_with_label(label@, out@)
                + spec_bucket_of(entries_view(flat@.subrange(i as int, n as int)), label@),
        decreases n - i,
    {
        let ghost suffix = entries_view(flat@.subrange(i as int, n as int));
        proof {
            assert(suffix[0] == entry_view(flat@[i as int]));
            assert(suffix.drop_first() =~~= entries_view(
                flat@.subrange(i as int + 1, n as int),
            ));
        }
        let ghost before = infos_with_label(label@, out@);
        if str_eq(flat[i].0.as_str(), label) {
            out.push(flat[i].1.clone());
            proof {
                assert(infos_with_label(label@, out@) =~~= before + seq![
                    entry_view(flat@[i as int]),
                ]);
            }
        }
        proof {
            assert(spec_bucket_of(entries_view(flat@), label@) =~~= infos_with_label(
                label@,
                out@,
            ) + spec_bucket_of(entries_view(flat@.subrange(i as int + 1, n as int)), label@));
        }
        i = i + 1;
    }
    proof {
        assert(flat@.subrange(n as int, n as int) =~= Seq::<(String, ExerciseInfo)>::empty());
        assert(infos_with_label(label@, out@) =~~= spec_bucket_of(entries_view(flat@), label@));
    }
    out
}

/// Groups a flat entry list by page label, keys in order of first
/// occurrence.
fn group_entries(flat: &Vec<(String, ExerciseInfo)>) -> (r: Vec<(String, Vec<ExerciseInfo>)>)
    ensures
        ({
            let entries = entries_view(flat@);
            &&& forall|k1: int, k2: int|
                0 <= k1 < k2 < r@.len() ==> (#[trigger] r@[k1]).0@ != (#[trigger] r@[k2]).0@
            &&& forall|k: int|
                0 <= k < r@.len() ==> infos_with_label((#[trigger] r@[k]).0@, r@[k].1@)
                    == spec_bucket_of(entries, r@[k].0@)
            &&& forall|k: int| 0 <= k < r@.len() ==> (#[trigger] r@[k]).1@.len() > 0
            &&& forall|label: Seq<char>|
                #[trigger] spec_bucket_of(entries, label).len() > 0 ==> exists|k: int|
                    0 <= k < r@.len() && (#[trigger] r@[k]).0@ == label
        }),
{
    let n = flat.len();
    let mut out: Vec<(String, Vec<ExerciseInfo>)> = Vec::new();
    let mut i: usize = 0;
    while i < n
        invariant
            n == flat@.len(),
            0 <= i <= n,
            forall|k1: int, k2: int|
                0 <= k1 < k2 < out@.len() ==> (#[trigger] out@[k1]).0@ != (
                #[trigger] out@[k2]).0@,
            forall|k: int|
                0 <= k < out@.len() ==> infos_with_label((#[trigger] out@[k]).0@, out@[k].1@)
                    == spec_bucket_of(entries_view(flat@), out@[k].0@),
            forall|k: int| 0 <= k < out@.len() ==> (#[trigger] out@[k]).1@.len() > 0,
            forall|j: int|
                0 <= j < i ==> exists|k: int|
                    0 <= k < out@.len() && (#[trigger] out@[k]).0@ == (#[trigger] entries_view(
                        flat@,
                    )[j]).label,
        decreases n - i,
    {
        let ghost prior = out@;
        if !has_key(&out, flat[i].0.as_str()) {
            let bucket = collect_label(flat, flat[i].0.as_str());
            proof {
                assert(entries_view(flat@)[i as int] == entry_view(flat@[i as int]));
                lemma_bucket_membership(entries_view(flat@), flat@[i as int].0@, i as int);
                assert(spec_bucket_of(entries_view(flat@), flat@[i as int].0@).len() > 0);
                assert(infos_with_label(flat@[i as int].0@, bucket@).len() == bucket@.len());
            }
            out.push((flat[i].0.clone(), bucket));
            proof {
                assert(forall|k: int| 0 <= k < prior.len() ==> out@[k] == prior[k]);
                assert(out@[out@.len() - 1].0@ == flat@[i as int].0@);
            }
        }
        proof {
            assert(entries_view(flat@)[i as int].label == flat@[i as int].0@);
            assert(forall|k: int| 0 <= k < prior.len() ==> out@[k] == prior[k]);
            assert(exists|k: int|
                0 <= k < out@.len() && (#[trigger] out@[k]).0@ == flat@[i as int].0@);
            assert forall|j: int| 0 <= j < i + 1 implies exists|k: int|
                0 <= k < out@.len() && (#[trigger] out@[k]).0@ == (#[trigger] entries_view(
                    flat@,
                )[j]).label by {
                if j < i {
                    let k0 = choose|k0: int|
                        0 <= k0 < prior.len() && (#[trigger] prior[k0]).0@ == entries_view(
                            flat@,
                        )[j].label;
                    assert(out@[k0].0@ == entries_view(flat@)[j].label);
                } else {
                    let k1 = choose|k1: int|
                        0 <= k1 < out@.len() && (#[trigger] out@[k1]).0@ == flat@[i as int].0@;
                    assert(out@[k1].0@ == entries_view(flat@)[j].label);
                }
            }
        }
        i = i + 1;
    }
    proof {
        assert forall|label: Seq<char>|
            #[trigger] spec_bucket_of(entries_view(flat@), label).len() > 0 implies exists|k: int|
            0 <= k < out@.len() && (#[trigger] out@[k]).0@ == label by {
            lemma_bucket_nonempty_has_witness(entries_view(flat@), label);
            let j = choose|j: int|
                0 <= j < entries_view(flat@).len() && entries_view(flat@)[j].label == label;
            assert(exists|k: int|
                0 <= k < out@.len() && (#[trigger] out@[k]).0@ == entries_view(flat@)[j].label);
        }
    }
    out
}

/// A fresh, effectively unique key for a table-of-contents node that has
/// no resource of its own.
///
/// Relies on `uuid::Uuid::new_v4` and its hyphenated `Display` form: a
/// freshly drawn random identifier printed as 36 ASCII characters.
#[verifier::external_body]
fn fresh_node_key() -> (r: String)
    ensures
        r@.len() == 36,
{
    uuid::Uuid::new_v4().to_string()
}

/// The ghost image of an optional owned string.
pub open spec fn opt_string_view(o: Option<String>) -> Option<Seq<char>> {
    match o {
        Some(s) => Some(s@),
        None => None,
    }
}

/// The audio targets of an overlay list, in order.
pub open spec fn spec_audios_of(overlays: Seq<OverlayItem>) -> Seq<OverlayAudio>
    decreases overlays.len(),
{
    if overlays.len() == 0 {
        Seq::empty()
    } else {
        (match overlays[0].audio {
            Some(a) => seq![a],
            None => Seq::empty(),
        }) + spec_audios_of(overlays.drop_first())
    }
}

/// The audios filed under a page number: those of the last overlay page
/// with that number that carries any audio at all.
pub open spec fn spec_page_audios(pages: Seq<OverlayPage>, sno: int) -> Seq<OverlayAudio>
    decreases pages.len(),
{
    if pages.len() == 0 {
        Seq::empty()
    } else if pages.last().sno == sno && spec_audios_of(pages.last().overlays@).len() > 0 {
        spec_audios_of(pages.last().overlays@)
    } else {
        spec_page_audios(pages.drop_last(), sno)
    }
}

/// The audios of every page number from `start` to `end`, concatenated in
/// page order.
pub open spec fn spec_range_audios(pages: Seq<OverlayPage>, start: int, end: int) -> Seq<
    OverlayAudio,
>
    decreases end - start + 1,
{
    if start > end {
        Seq::empty()
    } else {
        spec_range_audios(pages, start, end - 1) + spec_page_audios(pages, end)
    }
}

/// The resource filed under an identifier: the first matching entry.
pub open spec fn spec_resource_lookup(
    res: Seq<(String, GenericResource)>,
    id: Seq<char>,
) -> Option<GenericResource>
    decreases res.len(),
{
    if res.len() == 0 {
        None
    } else if res[0].0@ == id {
        Some(res[0].1)
    } else {
        spec_resource_lookup(res.drop_first(), id)
    }
}

/// The page range a table-of-contents item spans: its resource's image
/// unit where it has a resource, its own attributes where it has none,
/// nothing otherwise.
pub open spec fn spec_item_pages(
    item: TocItem,
    res: Seq<(String, GenericResource)>,
) -> (Option<Seq<char>>, Option<Seq<char>>) {
    match item.resource {
        Some(rid) => match spec_resource_lookup(res, rid@) {
            Some(r) => match r.imgbook_unit {
                Some(u) => (Some(u.start_page_no@), Some(u.end_page_no@)),
                None => (None, None),
            },
            None => (None, None),
        },
        None => match item.attribs {
            Some(a) => (
                match a.start_page_no {
                    Some(s) => Some(s@),
                    None => opt_string_view(a.page_no),
                },
                match a.end_page_no {
                    Some(e) => Some(e@),
                    None => opt_string_view(a.page_no),
                },
            ),
            None => (None, None),
        },
    }
}

/// The audio list of a node: every audio over its page range, where both
/// bounds read as numbers and anything was found at all.
pub open spec fn spec_node_audios(
    start: Option<Seq<char>>,
    end: Option<Seq<char>>,
    pages: Seq<OverlayPage>,
) -> Option<Seq<OverlayAudio>> {
    match (start, end) {
        (Some(s), Some(e)) => match (
            crate::text::spec_parse_i32(s),
            crate::text::spec_parse_i32(e),
        ) {
            (Some(si), Some(ei)) => {
                let audios = spec_range_audios(pages, si as int, ei as int);
                if audios.len() == 0 {
                    None
                } else {
                    Some(audios)
                }
            },
            _ => None,
        },
        _ => None,
    }
}

/// How one assembled node relates to its item: title from the name, key
/// from the resource (or a fresh 36-character key), page range and audios
/// as the specs above say, and children matching the sub-items wherever
/// there are any.
pub open spec fn toc_node_matches(
    item: TocItem,
    node: TocNode,
    res: Seq<(String, GenericResource)>,
    pages: Seq<OverlayPage>,
) -> bool
    decreases item,
{
    &&& node.title@ == item.name@
    &&& match item.resource {
        Some(r) => node.key@ == r@,
        None => node.key@.len() == 36,
    }
    &&& opt_string_view(node.start_page) == spec_item_pages(item, res).0
    &&& opt_string_view(node.end_page) == spec_item_pages(item, res).1
    &&& match spec_node_audios(
        spec_item_pages(item, res).0,
        spec_item_pages(item, res).1,
        pages,
    ) {
        Some(audios) => node.audio_files matches Some(af) && af@ == audios,
        None => node.audio_files is None,
    }
    &&& match item.items {
        Some(sub) => if sub@.len() > 0 {
            node.children matches Some(ch) && toc_forest_matches(sub@, ch@, res, pages)
        } else {
            node.children is None
        },
        None => node.children is None,
    }
}

/// How an assembled forest relates to its items: one node per item, each
/// matching its own.
pub open spec fn toc_forest_matches(
    items: Seq<TocItem>,
    nodes: Seq<TocNode>,
    res: Seq<(String, GenericResource)>,
    pages: Seq<OverlayPage>,
) -> bool
    decreases items,
{
    &&& nodes.len() == items.len()
    &&& forall|k: int|
        0 <= k < items.len() ==> toc_node_matches(#[trigger] items[k], nodes[k], res, pages)
}

/// The audio targets of one overlay list.
fn audios_of(overlays: &Vec<OverlayItem>) -> (r: Vec<OverlayAudio>)
    ensures
        r@ == spec_audios_of(overlays@),
{
    let n = overlays.len();
    let mut out: Vec<OverlayAudio> = Vec::new();
    let mut i: usize = 0;
    proof {
        assert(overlays@.subrange(0, n as int) =~= overlays@);
        assert(out@ + spec_audios_of(overlays@.subrange(0, n as int)) =~= spec_audios_of(
            overlays@,
        ));
    }
    while i < n
        invariant
            n == overlays@.len(),
            0 <= i <= n,
            spec_audios_of(overlays@) == out@ + spec_audios_of(
                overlays@.subrange(i as int, n as int),
            ),
        decreases n - i,
    {
        proof {
            assert(overlays@.subrange(i as int, n as int)[0] == overlays@[i as int]);
            assert(overlays@.subrange(i as int, n as int).drop_first() =~= overlays@.subrange(
                i as int + 1,
                n as int,
            ));
        }
        let ghost before = out@;
        match &overlays[i].audio {
            Some(a) => {
                out.push(a.clone());
                proof {
                    assert(out@ =~= before + seq![overlays@[i as int].audio->0]);
                }
            },
            None => {},
        }
        proof {
            assert(spec_audios_of(overlays@) =~= out@ + spec_audios_of(
                overlays@.subrange(i as int + 1, n as int),
            ));
        }
        i = i + 1;
    }
    proof {
        assert(overlays@.subrange(n as int, n as int) =~= Seq::<OverlayItem>::empty());
        assert(spec_audios_of(overlays@) =~= out@);
    }
    out
}

/// The audios filed under one page number.
fn page_audios(pages: &Vec<OverlayPage>, sno: i32) -> (r: Vec<OverlayAudio>)
    ensures
        r@ == spec_page_audios(pages@, sno as int),
{
    let n = pages.len();
    let mut i: usize = n;
    proof {
        assert(pages@.subrange(0, n as int) =~= pages@);
    }
    while i > 0
        invariant
            n == pages@.len(),
            0 <= i <= n,
            spec_page_audios(pages@, sno as int) == spec_page_audios(
                pages@.subrange(0, i as int),
                sno as int,
            ),
        decreases i,
    {
        let j = i - 1;
        let ghost prefix = pages@.subrange(0, i as int);
        proof {
            assert(prefix.last() == pages@[j as int]);
            assert(prefix.drop_last() =~= pages@.subrange(0, j as int));
        }
        if pages[j].sno == sno {
            let audios = audios_of(&pages[j].overlays);
            if audios.len() > 0 {
                return audios;
            }
        }
        i = j;
    }
    proof {
        assert(pages@.subrange(0, 0) =~= Seq::<OverlayPage>::empty());
    }
    Vec::new()
}

/// The audios of every page number in an inclusive range.
fn range_audios(pages: &Vec<OverlayPage>, start: i32, end: i32) -> (r: Vec<OverlayAudio>)
    ensures
        r@ == spec_range_audios(pages@, start as int, end as int),
{
    let mut out: Vec<OverlayAudio> = Vec::new();
    let mut cur: i64 = start as i64;
    proof {
        assert(out@ =~= spec_range_audios(pages@, start as int, start as int - 1));
    }
    while cur <= end as i64
        invariant
            start as int <= cur <= end as int + 1 || (start as int > end as int && cur
                == start as int),
            out@ == spec_range_audios(pages@, start as int, cur - 1),
        decreases end as int - cur + 1,
    {
        let mut page = page_audios(pages, cur as i32);
        let ghost before = out@;
        out.append(&mut page);
        proof {
            assert(out@ =~= before + spec_page_audios(pages@, cur as int));
            assert(out@ =~= spec_range_audios(pages@, start as int, cur as int));
        }
        cur = cur + 1;
    }
    out
}

/// The resource filed under an identifier.
fn resource_lookup<'a>(
    res: &'a Vec<(String, GenericResource)>,
    id: &str,
) -> (r: Option<&'a GenericResource>)
    ensures
        match r {
            Some(g) => spec_resource_lookup(res@, id@) == Some(*g),
            None => spec_resource_lookup(res@, id@) is None,
        },
{
    let n = res.len();
    let mut i: usize = 0;
    proof {
        assert(res@.subrange(0, n as int) =~= res@);
    }
    while i < n
        invariant
            n == res@.len(),
            0 <= i <= n,
            spec_resource_lookup(res@, id@) == spec_resource_lookup(
                res@.subrange(i as int, n as int),
                id@,
            ),
        decreases n - i,
    {
        proof {
            assert(res@.subrange(i as int, n as int)[0] == res@[i as int]);
            assert(res@.subrange(i as int, n as int).drop_first() =~= res@.subrange(
                i as int + 1,
                n as int,
            ));
        }
        if str_eq(res[i].0.as_str(), id) {
            return Some(&res[i].1);
        }
        i = i + 1;
    }
    proof {
        assert(res@.subrange(n as int, n as int) =~= Seq::<(String, GenericResource)>::empty());
    }
    None
}

/// The resource filed under a page label: the key of the last resource
/// whose image unit sits on that page.
pub open spec fn spec_page_resource(
    res: Seq<(String, GenericResource)>,
    label: Seq<char>,
) -> Option<Seq<char>>
    decreases res.len(),
{
    if res.len() == 0 {
        None
    } else if res.last().1.imgbook_unit matches Some(u) && u.page_no@ == label {
        Some(res.last().0@)
    } else {
        spec_page_resource(res.drop_last(), label)
    }
}

/// The overlays filed under a page number: those of the last overlay page
/// with that number.
pub open spec fn spec_overlays_at(pages: Seq<OverlayPage>, sno: int) -> Option<Seq<OverlayItem>>
    decreases pages.len(),
{
    if pages.len() == 0 {
        None
    } else if pages.last().sno == sno {
        Some(pages.last().overlays@)
    } else {
        spec_overlays_at(pages.drop_last(), sno)
    }
}

/// The bucket a grouped exercise mapping files under a label: the first
/// matching key's exercises.
pub open spec fn spec_mapping_lookup(
    m: Seq<(String, Vec<ExerciseInfo>)>,
    label: Seq<char>,
) -> Option<Seq<ExerciseInfo>>
    decreases m.len(),
{
    if m.len() == 0 {
        None
    } else if m[0].0@ == label {
        Some(m[0].1@)
    } else {
        spec_mapping_lookup(m.drop_first(), label)
    }
}

/// How one page-index entry relates to its page: keyed and labelled by the
/// page label, imaged under the large-image folder, tied to the resource
/// sitting on the page, and carrying the page's exercises and overlays
/// where there are any.
pub open spec fn page_entry_matches(
    p: PageInfo,
    sno: int,
    entry: (String, PageIndex),
    folder: Seq<char>,
    res: Seq<(String, GenericResource)>,
    mapping: Option<Seq<(String, Vec<ExerciseInfo>)>>,
    overlay_pages: Seq<OverlayPage>,
) -> bool {
    &&& entry.0@ == p.pagelabel@
    &&& entry.1.label@ == p.pagelabel@
    &&& entry.1.image_path@ == folder + p.bgimage@
    &&& opt_string_view(entry.1.resource_id) == spec_page_resource(res, p.pagelabel@)
    &&& match mapping {
        Some(m) => match spec_mapping_lookup(m, p.pagelabel@) {
            Some(es) => entry.1.exercises matches Some(ex) && ex@ == es,
            None => entry.1.exercises is None,
        },
        None => entry.1.exercises is None,
    }
    &&& match spec_overlays_at(overlay_pages, sno) {
        Some(ovs) => entry.1.overlays matches Some(o) && o@ == ovs,
        None => entry.1.overlays is None,
    }
}

/// A copy of an exercise list, element by element.
fn clone_infos(v: &Vec<ExerciseInfo>) -> (r: Vec<ExerciseInfo>)
    ensures
        r@ == v@,
{
    let mut out: Vec<ExerciseInfo> = Vec::new();
    let mut i: usize = 0;
    while i < v.len()
        invariant
            0 <= i <= v@.len(),
            out@ =~= v@.subrange(0, i as int),
        decreases v@.len() - i,
    {
        out.push(v[i].clone());
        proof {
            assert(out@ =~= v@.subrange(0, i as int + 1));
        }
        i = i + 1;
    }
    proof {
        assert(out@ =~= v@);
    }
    out
}

/// A copy of an overlay list, element by element.
fn clone_overlays(v: &Vec<OverlayItem>) -> (r: Vec<OverlayItem>)
    ensures
        r@ == v@,
{
    let mut out: Vec<OverlayItem> = Vec::new();
    let mut i: usize = 0;
    while i < v.len()
        invariant
            0 <= i <= v@.len(),
            out@ =~= v@.subrange(0, i as int),
        decreases v@.len() - i,
    {
        out.push(v[i].clone());
        proof {
            assert(out@ =~= v@.subrange(0, i as int + 1));
        }
        i = i + 1;
    }
    proof {
        assert(out@ =~= v@);
    }
    out
}

/// The resource sitting on a page, scanning from the back so that a later
/// entry shadows an earlier one.
fn page_resource_lookup(res: &Vec<(String, GenericResource)>, label: &str) -> (r: Option<
    String,
>)
    ensures
        opt_string_view(r) == spec_page_resource(res@, label@),
{
    let n = res.len();
    let mut i: usize = n;
    proof {
        assert(res@.subrange(0, n as int) =~= res@);
    }
    while i > 0
        invariant
            n == res@.len(),
            0 <= i <= n,
            spec_page_resource(res@, label@) == spec_page_resource(
                res@.subrange(0, i as int),
                label@,
            ),
        decreases i,
    {
        let j = i - 1;
        proof {
            assert(res@.subrange(0, i as int).last() == res@[j as int]);
            assert(res@.subrange(0, i as int).drop_last() =~= res@.subrange(0, j as int));
        }
        match &res[j].1.imgbook_unit {
            Some(unit) => {
                if str_eq(unit.page_no.as_str(), label) {
                    return Some(res[j].0.clone());
                }
            },
            None => {},
        }
        i = j;
    }
    proof {
        assert(res@.subrange(0, 0) =~= Seq::<(String, GenericResource)>::empty());
    }
    None
}

/// The overlays of a page number, scanning from the back so that a later
/// page shadows an earlier one with the same number.
fn overlays_lookup(pages: &Vec<OverlayPage>, sno: i32) -> (r: Option<Vec<OverlayItem>>)
    ensures
        match r {
            Some(o) => spec_overlays_at(pages@, sno as int) == Some(o@),
            None => spec_overlays_at(pages@, sno as int) is None,
        },
{
    let n = pages.len();
    let mut i: usize = n;
    proof {
        assert(pages@.subrange(0, n as int) =~= pages@);
    }
    while i > 0
        invariant
            n == pages@.len(),
            0 <= i <= n,
            spec_overlays_at(pages@, sno as int) == spec_overlays_at(
                pages@.subrange(0, i as int),
                sno as int,
            ),
        decreases i,
    {
        let j = i - 1;
        proof {
            assert(pages@.subrange(0, i as int).last() == pages@[j as int]);
            assert(pages@.subrange(0, i as int).drop_last() =~= pages@.subrange(0, j as int));
        }
        if pages[j].sno == sno {
            return Some(clone_overlays(&pages[j].overlays));
        }
        i = j;
    }
    proof {
        assert(pages@.subrange(0, 0) =~= Seq::<OverlayPage>::empty());
    }
    None
}

/// The exercises a grouped mapping files under a label.
fn mapping_lookup(m: &Vec<(String, Vec<ExerciseInfo>)>, label: &str) -> (r: Option<
    Vec<ExerciseInfo>,
>)
    ensures
        match r {
            Some(es) => spec_mapping_lookup(m@, label@) == Some(es@),
            None => spec_mapping_lookup(m@, label@) is None,
        },
{
    let n = m.len();
    let mut i: usize = 0;
    proof {
        assert(m@.subrange(0, n as int) =~= m@);
    }
    while i < n
        invariant
            n == m@.len(),
            0 <= i <= n,
            spec_mapping_lookup(m@, label@) == spec_mapping_lookup(
                m@.subrange(i as int, n as int),
                label@,
            ),
        decreases n - i,
    {
        proof {
            assert(m@.subrange(i as int, n as int)[0] == m@[i as int]);
            assert(m@.subrange(i as int, n as int).drop_first() =~= m@.subrange(
                i as int + 1,
                n as int,
            ));
        }
        if str_eq(m[i].0.as_str(), label) {
            return Some(clone_infos(&m[i].1));
        }
        i = i + 1;
    }
    proof {
        assert(m@.subrange(n as int, n as int) =~= Seq::<(String, Vec<ExerciseInfo>)>::empty());
    }
    None
}

/// An entry at `j` puts its label's bucket above empty.
proof fn lemma_bucket_membership(entries: Seq<ExerciseEntry>, label: Seq<char>, j: int)
    requires
        0 <= j < entries.len(),
        entries[j].label == label,
    ensures
        spec_bucket_of(entries, label).len() > 0,
    decreases j,
{
    if j > 0 {
        lemma_bucket_membership(entries.drop_first(), label, j - 1);
    }
}

/// A nonempty bucket names an entry that carries its label.
proof fn lemma_bucket_nonempty_has_witness(entries: Seq<ExerciseEntry>, label: Seq<char>)
    requires
        spec_bucket_of(entries, label).len() > 0,
    ensures
        exists|j: int| 0 <= j < entries.len() && (#[trigger] entries[j]).label == label,
    decreases entries.len(),
{
    if entries.len() > 0 {
        if entries[0].label == label {
            assert(entries[0].label == label);
        } else {
            lemma_bucket_nonempty_has_witness(entries.drop_first(), label);
            let j = choose|j: int|
                0 <= j < entries.drop_first().len() && (#[trigger] entries.drop_first()[j]).label
                    == label;
            assert(entries[j + 1].label == label);
        }
    }
}

} // verus!
