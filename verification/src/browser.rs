use vstd::prelude::*;

use crate::filetype::FileType;
use crate::text::{decimal, has_prefix, i32_to_decimal, replace_all, replaced, same_text, starts_with};

verus! {

/// An entry of a media directory, as read from the file system: its file name,
/// its path relative to the media root, and whether it is a directory.
pub struct ListedEntry {
    pub name: String,
    pub rel_path: String,
    pub is_dir: bool,
}

/// A file whose name begins with `.` is hidden from the listing.
pub open spec fn is_hidden_name(name: Seq<char>) -> bool {
    has_prefix(name, "."@)
}

pub open spec fn entry_is_dir(e: ListedEntry) -> bool {
    e.is_dir
}

pub open spec fn entry_is_visible_file(e: ListedEntry) -> bool {
    !e.is_dir && !is_hidden_name(e.name@)
}

pub open spec fn entry_is_listed(e: ListedEntry) -> bool {
    e.is_dir || !is_hidden_name(e.name@)
}

pub open spec fn dir_pred() -> spec_fn(ListedEntry) -> bool {
    |e: ListedEntry| entry_is_dir(e)
}

pub open spec fn visible_file_pred() -> spec_fn(ListedEntry) -> bool {
    |e: ListedEntry| entry_is_visible_file(e)
}

pub open spec fn listed_pred() -> spec_fn(ListedEntry) -> bool {
    |e: ListedEntry| entry_is_listed(e)
}

/// The directories among `s`, in their order.
pub open spec fn dirs_of(s: Seq<ListedEntry>) -> Seq<ListedEntry> {
    s.filter(dir_pred())
}

/// The files among `s` that are not hidden, in their order.
pub open spec fn visible_files_of(s: Seq<ListedEntry>) -> Seq<ListedEntry> {
    s.filter(visible_file_pred())
}

/// The order in which a directory's entries are shown: all directories first,
/// then the files that are not hidden, each group in the order read.
pub open spec fn listing_order(s: Seq<ListedEntry>) -> Seq<ListedEntry> {
    dirs_of(s) + visible_files_of(s)
}

/// Whether an entry is hidden from the listing (a file whose name starts with `.`).
pub fn is_hidden(e: &ListedEntry) -> (r: bool)
    ensures
        r == !entry_is_listed(*e),
{
    !e.is_dir && starts_with(e.name.as_str(), ".")
}

fn copy_entry(e: &ListedEntry) -> (r: ListedEntry)
    ensures
        r == *e,
{
    ListedEntry { name: e.name.clone(), rel_path: e.rel_path.clone(), is_dir: e.is_dir }
}

/// Puts the entries of a directory in the order in which they are shown:
/// directories first, then files, keeping the order read within each group,
/// and leaves out hidden files.
pub fn order_entries(entries: &Vec<ListedEntry>) -> (r: Vec<ListedEntry>)
    ensures
        r@ == listing_order(entries@),
{
    let n = entries.len();
    let mut out: Vec<ListedEntry> = Vec::new();
    let mut i: usize = 0;
    while i < n
        invariant
            n == entries@.len(),
            i <= n,
            out@ == dirs_of(entries@.take(i as int)),
        decreases n - i,
    {
        assert(entries@.take(i + 1) =~= entries@.take(i as int).push(entries@[i as int]));
        proof {
            entries@.take(i as int).lemma_filter_push(entries@[i as int], dir_pred());
        }
        if entries[i].is_dir {
            out.push(copy_entry(&entries[i]));
        }
        i = i + 1;
    }
    assert(entries@.take(n as int) =~= entries@);
    let ghost dirs = out@;
    let mut j: usize = 0;
    while j < n
        invariant
            n == entries@.len(),
            j <= n,
            dirs == dirs_of(entries@),
            out@ == dirs + visible_files_of(entries@.take(j as int)),
        decreases n - j,
    {
        assert(entries@.take(j + 1) =~= entries@.take(j as int).push(entries@[j as int]));
        proof {
            entries@.take(j as int).lemma_filter_push(entries@[j as int], visible_file_pred());
        }
        if !entries[j].is_dir && !starts_with(entries[j].name.as_str(), ".") {
            out.push(copy_entry(&entries[j]));
        }
        j = j + 1;
    }
    assert(entries@.take(n as int) =~= entries@);
    out
}

/// A character that a URL path cannot carry as it is.
pub open spec fn is_url_reserved(c: char) -> bool {
    c == '#' || c == '?' || c == '%'
}

/// Whether a file is linked by its record id rather than by its path. Which
/// files count as special is this library's own rule: those whose path holds a
/// character that a URL path cannot carry as it is.
pub fn is_special_path(path: &str) -> (r: bool)
    ensures
        r == exists|i: int| 0 <= i < path@.len() && is_url_reserved(#[trigger] path@[i]),
{
    let v = crate::text::chars_of(path);
    let mut i: usize = 0;
    while i < v.len()
        invariant
            v@ == path@,
            i <= v.len(),
            forall|k: int| 0 <= k < i ==> !is_url_reserved(#[trigger] v@[k]),
        decreases v.len() - i,
    {
        let c = v[i];
        if c == '#' || c == '?' || c == '%' {
            assert(is_url_reserved(path@[i as int]));
            return true;
        }
        i = i + 1;
    }
    false
}

/// How a file of the listing is shown: its thumbnail's file name in the cache,
/// its type, whether it is linked by its record id rather than its path, and
/// that id where the store has one.
pub struct FileShown {
    pub thumb: String,
    pub file_type: FileType,
    pub special: bool,
    pub id: Option<i32>,
}

/// What the listing shows of an entry, once the file system and the store have
/// been asked about it.
pub enum ItemKind {
    Dir { empty: bool },
    File(FileShown),
}

/// An entry of the listing, ready to be rendered.
pub struct BrowserItem {
    pub name: String,
    pub rel_path: String,
    pub kind: ItemKind,
}

pub const PREVIEW_OPEN: &'static str = "<img src=\"";
pub const PREVIEW_ALT: &'static str = "\" loading=\"lazy\" alt=\"";
pub const PREVIEW_CLOSE: &'static str = "\" onerror=\"this.src='/cache/default.png'\">";
pub const CACHE_PREFIX: &'static str = "/cache/";
pub const EMPTY_DIR_ICON: &'static str = "empty-dir.png";
pub const DIR_ICON: &'static str = "dir.png";
pub const DIR_ITEM_OPEN: &'static str = "<div class=\"item\" href>\n                    <a href=\"/browser/";
pub const DIR_ITEM_PREVIEW: &'static str = "\">\n                    <div class=\"preview-wrapper\">\n                    ";
pub const DIR_ITEM_NAME: &'static str = "\n                    </div>\n                    <div class=\"name\">";
pub const DIR_ITEM_CLOSE: &'static str = "</div>\n                    </a>\n                    </div>";
pub const FILE_ITEM_OPEN: &'static str = "<div class=\"item\" href>\n                            <a href=\"/";
pub const FILE_ITEM_PREVIEW: &'static str = "\">\n                            <div class=\"preview-wrapper\">\n                            ";
pub const FILE_ITEM_NAME: &'static str = "\n                            </div>\n                            <div class=\"name\">";
pub const FILE_ITEM_CLOSE: &'static str = "</div>\n                            </a>\n                            </div>";
pub const ROOT_LIVE: &'static str = "live";
pub const ROOT_LIVE_BY_ID: &'static str = "live-byid";
pub const ROOT_MEDIA: &'static str = "media-files";
pub const SLASH: &'static str = "/";
pub const BACK_OPEN: &'static str = "<a href=\"/browser/";
pub const BACK_LABEL: &'static str = "/\" id=\"back\">\u{1F4C1} [";
pub const BACK_CLOSE: &'static str = "]</a>";
pub const PATH_MARK: &'static str = "{{PATH}}";
pub const CONTENT_MARK: &'static str = "{{CONTENT}}";
pub const BACK_MARK: &'static str = "{{BACK}}";

/// The thumbnail image of an item: `<img>` with the thumbnail's URL, lazy
/// loading, the name as alternative text, and the default icon as fallback.
pub open spec fn preview_html(thumb_url: Seq<char>, name: Seq<char>) -> Seq<char> {
    PREVIEW_OPEN@ + thumb_url + PREVIEW_ALT@ + name + PREVIEW_CLOSE@
}

/// The thumbnail URL of a directory: the empty-directory icon or the directory icon.
pub open spec fn dir_thumb_url(empty: bool) -> Seq<char> {
    CACHE_PREFIX@ + (if empty { EMPTY_DIR_ICON@ } else { DIR_ICON@ })
}

/// A file is linked by id where it is marked special and the store knows its id.
pub open spec fn linked_by_id(f: FileShown) -> bool {
    f.special && f.id is Some
}

/// The route a file links to: the player for videos (by id or by path), the raw
/// file for everything else.
pub open spec fn file_root(f: FileShown) -> Seq<char> {
    if f.file_type == FileType::Video {
        if linked_by_id(f) { ROOT_LIVE_BY_ID@ } else { ROOT_LIVE@ }
    } else {
        ROOT_MEDIA@
    }
}

/// What follows the route in a file's link: its id or its relative path.
pub open spec fn file_target(f: FileShown, rel_path: Seq<char>) -> Seq<char> {
    if linked_by_id(f) { decimal(f.id->0 as int) } else { rel_path }
}

/// The HTML of one entry of the listing.
pub open spec fn item_html(item: BrowserItem) -> Seq<char> {
    match item.kind {
        ItemKind::Dir { empty } =>
            DIR_ITEM_OPEN@ + item.rel_path@ + DIR_ITEM_PREVIEW@
                + preview_html(dir_thumb_url(empty), item.name@) + DIR_ITEM_NAME@ + item.name@
                + DIR_ITEM_CLOSE@,
        ItemKind::File(f) =>
            FILE_ITEM_OPEN@ + file_root(f) + SLASH@ + file_target(f, item.rel_path@)
                + FILE_ITEM_PREVIEW@ + preview_html(CACHE_PREFIX@ + f.thumb@, item.name@)
                + FILE_ITEM_NAME@ + item.name@ + FILE_ITEM_CLOSE@,
    }
}

/// The HTML of all entries, one after the other.
pub open spec fn items_html(items: Seq<BrowserItem>) -> Seq<char>
    decreases items.len(),
{
    if items.len() == 0 {
        Seq::empty()
    } else {
        items_html(items.drop_last()) + item_html(items.last())
    }
}

/// The link back to the parent directory; there is none at the media root
/// (an empty path or `.`).
pub open spec fn back_html(rel_path: Seq<char>, parent: Option<Seq<char>>, label: Seq<char>) -> Seq<char> {
    if rel_path == ""@ || rel_path == "."@ {
        Seq::empty()
    } else {
        let p = match parent {
            Some(p) => p,
            None => Seq::empty(),
        };
        BACK_OPEN@ + p + BACK_LABEL@ + label + BACK_CLOSE@
    }
}

/// The browser page: the template with its path, content and back-link marks
/// replaced, in that order.
pub open spec fn browser_page(
    template: Seq<char>,
    rel_path: Seq<char>,
    parent: Option<Seq<char>>,
    label: Seq<char>,
    items: Seq<BrowserItem>,
) -> Seq<char> {
    replaced(
        replaced(replaced(template, PATH_MARK@, rel_path), CONTENT_MARK@, items_html(items)),
        BACK_MARK@,
        back_html(rel_path, parent, label),
    )
}

/// The thumbnail `<img>` of an item.
pub fn preview(thumb_url: &str, name: &str) -> (r: String)
    ensures
        r@ == preview_html(thumb_url@, name@),
{
    let mut out = String::new();
    out.append(PREVIEW_OPEN);
    out.append(thumb_url);
    out.append(PREVIEW_ALT);
    out.append(name);
    out.append(PREVIEW_CLOSE);
    out
}

/// The thumbnail URL of a file whose thumbnail is `thumb` in the cache.
pub fn file_thumb_url(thumb: &str) -> (r: String)
    ensures
        r@ == CACHE_PREFIX@ + thumb@,
{
    let mut out = String::new();
    out.append(CACHE_PREFIX);
    out.append(thumb);
    out
}

fn push_item(out: &mut String, item: &BrowserItem)
    ensures
        final(out)@ == old(out)@ + item_html(*item),
{
    match &item.kind {
        ItemKind::Dir { empty } => {
            let mut url = String::new();
            url.append(CACHE_PREFIX);
            if *empty {
                url.append(EMPTY_DIR_ICON);
            } else {
                url.append(DIR_ICON);
            }
            let pre = preview(url.as_str(), item.name.as_str());
            out.append(DIR_ITEM_OPEN);
            out.append(item.rel_path.as_str());
            out.append(DIR_ITEM_PREVIEW);
            out.append(pre.as_str());
            out.append(DIR_ITEM_NAME);
            out.append(item.name.as_str());
            out.append(DIR_ITEM_CLOSE);
        },
        ItemKind::File(f) => {
            let by_id = f.special && f.id.is_some();
            let root = if f.file_type == FileType::Video {
                if by_id { ROOT_LIVE_BY_ID } else { ROOT_LIVE }
            } else {
                ROOT_MEDIA
            };
            let target = match f.id {
                Some(id) if by_id => i32_to_decimal(id),
                _ => item.rel_path.clone(),
            };
            let url = file_thumb_url(f.thumb.as_str());
            let pre = preview(url.as_str(), item.name.as_str());
            out.append(FILE_ITEM_OPEN);
            out.append(root);
            out.append(SLASH);
            out.append(target.as_str());
            out.append(FILE_ITEM_PREVIEW);
            out.append(pre.as_str());
            out.append(FILE_ITEM_NAME);
            out.append(item.name.as_str());
            out.append(FILE_ITEM_CLOSE);
        },
    }
}

/// The HTML of the listed items.
pub fn render_items(items: &Vec<BrowserItem>) -> (r: String)
    ensures
        r@ == items_html(items@),
{
    let mut out = String::new();
    let mut i: usize = 0;
    while i < items.len()
        invariant
            i <= items@.len(),
            out@ == items_html(items@.take(i as int)),
        decreases items.len() - i,
    {
        assert(items@.take(i + 1).drop_last() =~= items@.take(i as int));
        push_item(&mut out, &items[i]);
        i = i + 1;
    }
    assert(items@.take(i as int) =~= items@);
    out
}

/// The link back to the parent directory of `rel_path`.
pub fn back_link(rel_path: &str, parent: Option<&str>, label: &str) -> (r: String)
    ensures
        r@ == back_html(rel_path@, match parent { Some(p) => Some(p@), None => None }, label@),
{
    let mut out = String::new();
    if same_text(rel_path, "") || same_text(rel_path, ".") {
        return out;
    }
    out.append(BACK_OPEN);
    match parent {
        Some(p) => out.append(p),
        None => {},
    }
    out.append(BACK_LABEL);
    out.append(label);
    out.append(BACK_CLOSE);
    out
}

/// Renders the browser page for the directory `rel_path` (relative to the media
/// root), whose parent directory is `parent`, with the listed items.
pub fn render_browser_page(
    template: &str,
    rel_path: &str,
    parent: Option<&str>,
    back_label: &str,
    items: &Vec<BrowserItem>,
) -> (r: String)
    ensures
        r@ == browser_page(
            template@,
            rel_path@,
            match parent { Some(p) => Some(p@), None => None },
            back_label@,
            items@,
        ),
{
    let content = render_items(items);
    let back = back_link(rel_path, parent, back_label);
    proof {
        reveal_strlit("{{PATH}}");
        reveal_strlit("{{CONTENT}}");
        reveal_strlit("{{BACK}}");
    }
    let a = replace_all(template, PATH_MARK, rel_path);
    let b = replace_all(a.as_str(), CONTENT_MARK, content.as_str());
    replace_all(b.as_str(), BACK_MARK, back.as_str())
}

/// The listing shows exactly the entries that are not hidden files, each as
/// often as it was read: ordering only moves the directories to the front.
pub proof fn lemma_listing_shows_each_listed_entry_once(s: Seq<ListedEntry>)
    ensures
        listing_order(s).to_multiset() =~= s.filter(listed_pred()).to_multiset(),
    decreases s.len(),
{
    broadcast use vstd::multiset::group_multiset_axioms;
    broadcast use vstd::seq_lib::to_multiset_build;
    broadcast use vstd::seq_lib::lemma_multiset_commutative;

    if s.len() == 0 {
        assert(dirs_of(s) =~= Seq::<ListedEntry>::empty());
        assert(visible_files_of(s) =~= Seq::<ListedEntry>::empty());
        assert(s.filter(listed_pred()) =~= Seq::<ListedEntry>::empty());
        assert(listing_order(s) =~= Seq::<ListedEntry>::empty());
    } else {
        let t = s.drop_last();
        let x = s.last();
        assert(s =~= t.push(x));
        lemma_listing_shows_each_listed_entry_once(t);
        t.lemma_filter_push(x, dir_pred());
        t.lemma_filter_push(x, visible_file_pred());
        t.lemma_filter_push(x, listed_pred());
        assert(listing_order(s).to_multiset() =~= dirs_of(s).to_multiset().add(
            visible_files_of(s).to_multiset(),
        ));
        assert(listing_order(t).to_multiset() =~= dirs_of(t).to_multiset().add(
            visible_files_of(t).to_multiset(),
        ));
    }
}

/// What `std::path::Path::parent` gives for a path, as text: the path without
/// its final component, or nothing for a root or an empty path.
pub uninterp spec fn path_parent(path: Seq<char>) -> Option<Seq<char>>;

/// `Path::parent` on a path given as text. The parent of a valid UTF-8 path is
/// a prefix of it cut at a `/`, hence valid UTF-8. The contract names the result
/// and states no more of it.
#[verifier::external_body]
fn parent_of(path: &str) -> (r: Option<String>)
    ensures
        match r {
            Some(p) => path_parent(path@) == Some(p@),
            None => path_parent(path@) is None,
        },
{
    match std::path::Path::new(path).parent() {
        Some(p) => Some(p.to_string_lossy().into_owned()),
        None => None,
    }
}

/// Renders the browser page for the directory `rel_path` (relative to the media
/// root) with the given items, linking back to its parent directory.
pub fn render_browser(template: &str, rel_path: &str, back_label: &str, items: &Vec<BrowserItem>) -> (r: String)
    ensures
        r@ == browser_page(template@, rel_path@, path_parent(rel_path@), back_label@, items@),
{
    let parent = parent_of(rel_path);
    match parent {
        Some(p) => render_browser_page(template, rel_path, Some(p.as_str()), back_label, items),
        None => render_browser_page(template, rel_path, None, back_label, items),
    }
}

/// The items of a listing: the read entries in the order in which they are
/// shown (`listing_order`), each with what was learnt of it (`answers`, given in
/// that same order).
pub open spec fn listing_items(listed: Seq<ListedEntry>, answers: Seq<ItemKind>) -> Seq<BrowserItem> {
    let shown = listing_order(listed);
    Seq::new(
        answers.len(),
        |i: int| BrowserItem { name: shown[i].name, rel_path: shown[i].rel_path, kind: answers[i] },
    )
}

/// The answers fit the shown entries: one per entry, a directory answer exactly
/// for the directories.
pub open spec fn answers_fit(listed: Seq<ListedEntry>, answers: Seq<ItemKind>) -> bool {
    &&& answers.len() == listing_order(listed).len()
    &&& forall|i: int| 0 <= i < answers.len() ==> (#[trigger] answers[i] is Dir) == listing_order(listed)[i].is_dir
}

fn copy_kind(k: &ItemKind) -> (r: ItemKind)
    ensures
        r == *k,
{
    match k {
        ItemKind::Dir { empty } => ItemKind::Dir { empty: *empty },
        ItemKind::File(f) => ItemKind::File(
            FileShown { thumb: f.thumb.clone(), file_type: f.file_type, special: f.special, id: f.id },
        ),
    }
}

/// Renders the browser page of the directory `rel_path` from its entries as
/// read (`listed`) and what was learnt of each shown entry (`answers`, in the
/// order of `order_entries`): the page lists the directories first, then the
/// files that are not hidden, each group in the order read, one item per entry.
pub fn render_listing(
    template: &str,
    rel_path: &str,
    back_label: &str,
    listed: &Vec<ListedEntry>,
    answers: &Vec<ItemKind>,
) -> (r: String)
    requires
        answers_fit(listed@, answers@),
    ensures
        r@ == browser_page(
            template@,
            rel_path@,
            path_parent(rel_path@),
            back_label@,
            listing_items(listed@, answers@),
        ),
{
    let shown = order_entries(listed);
    let mut items: Vec<BrowserItem> = Vec::new();
    let mut i: usize = 0;
    while i < answers.len()
        invariant
            i <= answers@.len(),
            shown@ == listing_order(listed@),
            answers@.len() == shown@.len(),
            items@.len() == i,
            forall|k: int|
                0 <= k < i ==> #[trigger] items@[k] == listing_items(listed@, answers@)[k],
        decreases answers.len() - i,
    {
        items.push(
            BrowserItem {
                name: shown[i].name.clone(),
                rel_path: shown[i].rel_path.clone(),
                kind: copy_kind(&answers[i]),
            },
        );
        i = i + 1;
    }
    assert(items@ =~= listing_items(listed@, answers@));
    render_browser(template, rel_path, back_label, &items)
}

/// The items of a listing keep its order: every directory's item comes before
/// every file's item, there is one item per entry that is not a hidden file, and
/// each item carries the name and path of the entry it stands for.
pub proof fn lemma_listing_items_dirs_first(listed: Seq<ListedEntry>, answers: Seq<ItemKind>)
    requires
        answers_fit(listed, answers),
    ensures
        forall|i: int, j: int|
            0 <= i < j < answers.len() && (#[trigger] listing_items(listed, answers)[j]).kind is Dir
                ==> (#[trigger] listing_items(listed, answers)[i]).kind is Dir,
        listing_items(listed, answers).len() == listed.filter(listed_pred()).len(),
        forall|i: int|
            0 <= i < answers.len() ==> (#[trigger] listing_items(listed, answers)[i]).name
                == listing_order(listed)[i].name && listing_items(listed, answers)[i].rel_path
                == listing_order(listed)[i].rel_path,
{
    broadcast use vstd::seq_lib::group_filter_ensures;
    broadcast use vstd::seq_lib::to_multiset_len;

    let items = listing_items(listed, answers);
    let shown = listing_order(listed);
    let d = dirs_of(listed);
    let f = visible_files_of(listed);
    assert forall|i: int, j: int|
        0 <= i < j < answers.len() && (#[trigger] items[j]).kind is Dir implies (
        #[trigger] items[i]).kind is Dir by {
        assert(answers[j] is Dir);
        assert(shown[j].is_dir);
        if j >= d.len() {
            assert(shown[j] == f[j - d.len()]);
            assert(visible_file_pred()(f[j - d.len()]));
        }
        assert(shown[i] == d[i]);
        assert(dir_pred()(d[i]));
        assert(answers[i] is Dir);
    }
    lemma_listing_shows_each_listed_entry_once(listed);
    assert(shown.to_multiset().len() == shown.len());
    assert(listed.filter(listed_pred()).to_multiset().len() == listed.filter(listed_pred()).len());
}

/// Where an item of the listing links: a file that is not a video links to the
/// raw file under `/media-files/`, followed by its path (or by its record id where
/// it is linked by id); a video links to the player under `/live/` by its path,
/// or under `/live-byid/` by its record id where it is linked by id.
/// The item's HTML starts with the link up to and including its target.
pub proof fn lemma_file_item_link(name: String, rel_path: String, f: FileShown)
    ensures
        f.file_type != FileType::Video && !(f.special && f.id is Some) ==> has_prefix(
            item_html(BrowserItem { name, rel_path, kind: ItemKind::File(f) }),
            "<div class=\"item\" href>\n                            <a href=\"/media-files/"@ + rel_path@,
        ),
        f.file_type != FileType::Video && f.special && f.id is Some ==> has_prefix(
            item_html(BrowserItem { name, rel_path, kind: ItemKind::File(f) }),
            "<div class=\"item\" href>\n                            <a href=\"/media-files/"@ + decimal(f.id->0 as int),
        ),
        f.file_type == FileType::Video && !(f.special && f.id is Some) ==> has_prefix(
            item_html(BrowserItem { name, rel_path, kind: ItemKind::File(f) }),
            "<div class=\"item\" href>\n                            <a href=\"/live/"@ + rel_path@,
        ),
        f.file_type == FileType::Video && f.special && f.id is Some ==> has_prefix(
            item_html(BrowserItem { name, rel_path, kind: ItemKind::File(f) }),
            "<div class=\"item\" href>\n                            <a href=\"/live-byid/"@ + decimal(f.id->0 as int),
        ),
{
    let item = BrowserItem { name, rel_path, kind: ItemKind::File(f) };
    let h = item_html(item);
    let target = file_target(f, rel_path@);
    let head = FILE_ITEM_OPEN@ + file_root(f) + SLASH@ + target;
    assert(h == head + (FILE_ITEM_PREVIEW@ + preview_html(CACHE_PREFIX@ + f.thumb@, name@)
        + FILE_ITEM_NAME@ + name@ + FILE_ITEM_CLOSE@)) by {
        assert(h =~= head + (FILE_ITEM_PREVIEW@ + preview_html(CACHE_PREFIX@ + f.thumb@, name@)
            + FILE_ITEM_NAME@ + name@ + FILE_ITEM_CLOSE@));
    }
    reveal_strlit("<div class=\"item\" href>\n                            <a href=\"/");
    reveal_strlit("media-files");
    reveal_strlit("live");
    reveal_strlit("live-byid");
    reveal_strlit("/");
    reveal_strlit("<div class=\"item\" href>\n                            <a href=\"/media-files/");
    reveal_strlit("<div class=\"item\" href>\n                            <a href=\"/live/");
    reveal_strlit("<div class=\"item\" href>\n                            <a href=\"/live-byid/");
    if f.file_type != FileType::Video {
        assert(FILE_ITEM_OPEN@ + ROOT_MEDIA@ + SLASH@ =~= "<div class=\"item\" href>\n                            <a href=\"/media-files/"@);
    } else if !(f.special && f.id is Some) {
        assert(FILE_ITEM_OPEN@ + ROOT_LIVE@ + SLASH@ =~= "<div class=\"item\" href>\n                            <a href=\"/live/"@);
    } else {
        assert(FILE_ITEM_OPEN@ + ROOT_LIVE_BY_ID@ + SLASH@ =~= "<div class=\"item\" href>\n                            <a href=\"/live-byid/"@);
    }
}

} // verus!
