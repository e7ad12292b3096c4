use hlmv::browser::{
    is_hidden, is_special_path, order_entries, preview, render_browser, render_browser_page,
    render_items, render_listing,
    BrowserItem, FileShown, ItemKind, ListedEntry,
};
use hlmv::filetype::FileType;

fn entry(name: &str, is_dir: bool) -> ListedEntry {
    ListedEntry { name: name.to_string(), rel_path: format!("d/{}", name), is_dir }
}

fn names(v: &[ListedEntry]) -> Vec<&str> {
    v.iter().map(|e| e.name.as_str()).collect()
}

#[test]
fn directories_first_then_files_in_read_order() {
    let v = vec![
        entry("b.mp4", false),
        entry("x", true),
        entry("a.txt", false),
        entry("y", true),
    ];
    let o = order_entries(&v);
    assert_eq!(names(&o), vec!["x", "y", "b.mp4", "a.txt"]);
    assert!(o[0].is_dir && o[1].is_dir && !o[2].is_dir);
    assert_eq!(o[2].rel_path, "d/b.mp4");
}

#[test]
fn hidden_files_are_left_out_but_hidden_directories_stay() {
    let v = vec![entry(".secret", false), entry(".config", true), entry("song.mp3", false)];
    let o = order_entries(&v);
    assert_eq!(names(&o), vec![".config", "song.mp3"]);
    assert!(is_hidden(&v[0]));
    assert!(!is_hidden(&v[1]));
    assert!(!is_hidden(&v[2]));
}

#[test]
fn empty_directory_lists_nothing() {
    assert!(order_entries(&Vec::new()).is_empty());
    assert_eq!(render_items(&Vec::new()), "");
}

#[test]
fn preview_markup() {
    assert_eq!(
        preview("/cache/7.jpg", "cat.png"),
        "<img src=\"/cache/7.jpg\" loading=\"lazy\" alt=\"cat.png\" onerror=\"this.src='/cache/default.png'\">"
    );
}

fn dir_item(name: &str, empty: bool) -> BrowserItem {
    BrowserItem { name: name.to_string(), rel_path: format!("m/{}", name), kind: ItemKind::Dir { empty } }
}

fn file_item(name: &str, ft: FileType, special: bool, id: Option<i32>) -> BrowserItem {
    BrowserItem {
        name: name.to_string(),
        rel_path: format!("m/{}", name),
        kind: ItemKind::File(FileShown { thumb: "3.jpg".to_string(), file_type: ft, special, id }),
    }
}

fn expected_dir(rel: &str, name: &str, icon: &str) -> String {
    let i = " ".repeat(20);
    format!(
        "<div class=\"item\" href>\n{i}<a href=\"/browser/{rel}\">\n{i}<div class=\"preview-wrapper\">\n{i}<img src=\"/cache/{icon}\" loading=\"lazy\" alt=\"{name}\" onerror=\"this.src='/cache/default.png'\">\n{i}</div>\n{i}<div class=\"name\">{name}</div>\n{i}</a>\n{i}</div>"
    )
}

fn expected_file(root: &str, target: &str, name: &str) -> String {
    let i = " ".repeat(28);
    format!(
        "<div class=\"item\" href>\n{i}<a href=\"/{root}/{target}\">\n{i}<div class=\"preview-wrapper\">\n{i}<img src=\"/cache/3.jpg\" loading=\"lazy\" alt=\"{name}\" onerror=\"this.src='/cache/default.png'\">\n{i}</div>\n{i}<div class=\"name\">{name}</div>\n{i}</a>\n{i}</div>"
    )
}

#[test]
fn directory_items() {
    let v = vec![dir_item("full", false), dir_item("none", true)];
    let html = render_items(&v);
    let want = expected_dir("m/full", "full", "dir.png") + &expected_dir("m/none", "none", "empty-dir.png");
    assert_eq!(html, want);
}

#[test]
fn file_items_link_to_player_or_raw_file() {
    assert_eq!(
        render_items(&vec![file_item("a.mp4", FileType::Video, false, Some(3))]),
        expected_file("live", "m/a.mp4", "a.mp4")
    );
    assert_eq!(
        render_items(&vec![file_item("a.png", FileType::Image, false, Some(3))]),
        expected_file("media-files", "m/a.png", "a.png")
    );
}

#[test]
fn special_files_link_by_id() {
    assert_eq!(
        render_items(&vec![file_item("a#1.mp4", FileType::Video, true, Some(12))]),
        expected_file("live-byid", "12", "a#1.mp4")
    );
    assert_eq!(
        render_items(&vec![file_item("b#.png", FileType::Image, true, Some(-4))]),
        expected_file("media-files", "-4", "b#.png")
    );
    assert_eq!(
        render_items(&vec![file_item("c#.mp4", FileType::Video, true, None)]),
        expected_file("live", "m/c#.mp4", "c#.mp4")
    );
}

#[test]
fn page_fills_template() {
    let t = "<h1>{{PATH}}</h1>{{BACK}}<main>{{CONTENT}}</main>";
    let items = vec![dir_item("x", true)];
    let page = render_browser(t, "films/new", "Back", &items);
    let want = format!(
        "<h1>films/new</h1><a href=\"/browser/films/\" id=\"back\">\u{1F4C1} [Back]</a><main>{}</main>",
        expected_dir("m/x", "x", "empty-dir.png")
    );
    assert_eq!(page, want);
}

#[test]
fn no_back_link_at_the_root() {
    let t = "[{{BACK}}]{{PATH}}";
    assert_eq!(render_browser(t, "", "Back", &Vec::new()), "[]");
    assert_eq!(render_browser(t, ".", "Back", &Vec::new()), "[].");
}

#[test]
fn back_link_of_top_level_directory_points_to_root() {
    let t = "{{BACK}}";
    assert_eq!(
        render_browser(t, "films", "Назад", &Vec::new()),
        "<a href=\"/browser//\" id=\"back\">\u{1F4C1} [Назад]</a>"
    );
    assert_eq!(
        render_browser_page(t, "films", None, "B", &Vec::new()),
        "<a href=\"/browser//\" id=\"back\">\u{1F4C1} [B]</a>"
    );
}

#[test]
fn listing_page_orders_and_drops_hidden_files() {
    let listed = vec![
        ListedEntry { name: "a.mp4".to_string(), rel_path: "m/a.mp4".to_string(), is_dir: false },
        ListedEntry { name: ".h.png".to_string(), rel_path: "m/.h.png".to_string(), is_dir: false },
        ListedEntry { name: "x".to_string(), rel_path: "m/x".to_string(), is_dir: true },
    ];
    let answers = vec![
        ItemKind::Dir { empty: true },
        ItemKind::File(FileShown {
            thumb: "3.jpg".to_string(),
            file_type: FileType::Video,
            special: false,
            id: Some(3),
        }),
    ];
    let page = render_listing("{{CONTENT}}", "m", "B", &listed, &answers);
    assert_eq!(page, expected_dir("m/x", "x", "empty-dir.png") + &expected_file("live", "m/a.mp4", "a.mp4"));
}

#[test]
fn special_paths() {
    assert!(is_special_path("films/a#1.mp4"));
    assert!(is_special_path("what?.mkv"));
    assert!(is_special_path("100%.avi"));
    assert!(!is_special_path("films/plain name.mp4"));
}
