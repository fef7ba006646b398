use modlist_manager::components::{dlc_display, folder_display, menu, menu_display, mod_display, modlist_link, EditLink};
use modlist_manager::facts::PathFacts;
use modlist_manager::modlist::ModList;
use modlist_manager::pages::{
    filter_by_visibility, folder_entry, get_folder_from_view_type, insert_level, listed_imports,
    modlist_page, other_modlist_names, requested_visibility, root_page, shows_packed_summary, singular_form, FolderViewType,
    PackControl,
};
use modlist_manager::text::{ends_with, parse_i64, starts_with, trim_end_s, zero_padded_decimal};

fn modlist(name: &str, imports: &[&str], visibility: i64) -> ModList {
    let mut m = ModList::new(name.to_string());
    for i in imports {
        m.import_modlist(i);
    }
    m.visibility = visibility;
    m
}

#[test]
fn text_tests() {
    assert!(starts_with("dlc12", "dlc"));
    assert!(!starts_with("dl", "dlc"));
    assert!(ends_with("input.xml", ".xml"));
    assert!(!ends_with("input.xm", ".xml"));
    assert_eq!(trim_end_s("class"), "cla");
    assert_eq!(trim_end_s("sss"), "");
}

#[test]
fn singular_forms() {
    assert_eq!(singular_form("mods"), "mod");
    assert_eq!(singular_form("dlcs"), "dlc");
    assert_eq!(singular_form("menus"), "menu");
    assert_eq!(singular_form("saves"), "save");
    assert_eq!(singular_form("content"), "content");
}

#[test]
fn folder_displays() {
    let d = dlc_display("dlc1", "a");
    assert!(!d.disabled);
    assert!(matches!(&d.edit, EditLink::To(h) if h == "/modlist/a/edit/dlcs/dlc1"));
    assert!(dlc_display("bob", "a").disabled);
    assert!(!menu_display("input.xml", "a").disabled);
    assert!(menu_display("input.txt", "a").disabled);
    let m = mod_display("modA", "a", false);
    assert!(!m.disabled);
    assert!(matches!(&m.edit, EditLink::To(h) if h == "/modlist/a/edit/mods/modA"));
    let p = mod_display("~backup", "a", true);
    assert!(p.disabled);
    assert!(matches!(&p.edit, EditLink::Blocked(_)));
    assert!(folder_display("~old").disabled);
    assert!(matches!(folder_display("~old").edit, EditLink::Absent));
    assert!(matches!(folder_display("mod").edit, EditLink::Inert));
    let l = modlist_link("ghost");
    assert_eq!((l.href.as_str(), l.label.as_str()), ("/modlist/ghost", "ghost"));
    assert!(menu("root"));
    assert!(!menu("modlists"));
}

#[test]
fn levels_are_kept_sorted_and_unique() {
    let mut levels = Vec::new();
    for v in [0, 3, -1, 3, 2, 0] {
        insert_level(&mut levels, v);
    }
    assert_eq!(levels, vec![3, 2, 0, -1]);
}

#[test]
fn home_page_splits_installable_and_shared() {
    let ms = vec![
        modlist("vanilla", &[], 0),
        modlist("shared", &[], -1),
        modlist("ghost", &["shared", "vanilla"], 1),
        modlist("visuals", &["shared"], -1),
        modlist("rer", &["vanilla"], 1),
    ];
    let page = root_page(&ms, &PathFacts::new());
    assert!(page.should_initialize);
    assert_eq!(page.installable, vec![0, 2, 4]);
    assert_eq!(page.shared, vec![1, 3]);
    assert_eq!(page.installable_levels, vec![1, 0]);
    assert_eq!(page.shared_levels, vec![-1]);
    let mut f = PathFacts::new();
    f.record(ModList::new("vanilla".to_string()).path(), true, true);
    assert!(!root_page(&ms, &f).should_initialize);
}

#[test]
fn visibility_filter_keeps_order() {
    let ms = vec![modlist("a", &[], 1), modlist("b", &[], 2), modlist("c", &[], 1)];
    let kept: Vec<String> = filter_by_visibility(ms, 1).into_iter().map(|m| m.name).collect();
    assert_eq!(kept, vec!["a".to_string(), "c".to_string()]);
}

#[test]
fn modlist_page_controls() {
    let all = vec![modlist("a", &[], 0), modlist("b", &[], 0), modlist("c", &[], 0)];
    let plain = modlist("a", &["vanilla"], 0);
    let page = modlist_page(&plain, &all, &PathFacts::new());
    assert!(page.show_merge);
    assert_eq!(page.pack_control, PackControl::Pack);
    assert_eq!(page.import_choices, vec!["b".to_string(), "c".to_string()]);
    let importing = modlist("a", &["vanilla", "shared"], 0);
    assert_eq!(modlist_page(&importing, &all, &PathFacts::new()).pack_control, PackControl::PackBlocked);
    let mut f = PathFacts::new();
    f.record(importing.pack_path(), true, true);
    f.record(importing.packbackup_path(), true, true);
    let packed = modlist_page(&importing, &all, &f);
    assert!(!packed.show_merge);
    assert_eq!(packed.pack_control, PackControl::Unpack);
}

#[test]
fn folder_views() {
    let m = modlist("a", &["vanilla", "gone"], 0);
    assert_eq!(get_folder_from_view_type(&m, FolderViewType::Menus).parts.join("/"), "a/menus");
    assert!(shows_packed_summary(FolderViewType::Mods, false, true));
    assert!(!shows_packed_summary(FolderViewType::Mods, true, true));
    assert!(!shows_packed_summary(FolderViewType::Dlcs, false, true));
    assert!(folder_entry(FolderViewType::Dlcs, "x", "a", false).disabled);
    let mut f = PathFacts::new();
    f.record(ModList::new("vanilla".to_string()).path(), true, true);
    assert_eq!(listed_imports(&m, &f), vec!["vanilla".to_string()]);
}

#[test]
fn other_modlists_leave_out_the_named_one() {
    let all = vec![modlist("a", &[], 0), modlist("b", &[], 0), modlist("a", &[], 1), modlist("c", &[], 0)];
    assert_eq!(other_modlist_names(&all, "a"), vec!["b".to_string(), "c".to_string()]);
    assert_eq!(other_modlist_names(&all, "z").len(), 4);
    assert!(other_modlist_names(&Vec::new(), "a").is_empty());
}

#[test]
fn parse_i64_reads_signed_decimals() {
    assert_eq!(parse_i64("0"), Some(0));
    assert_eq!(parse_i64("42"), Some(42));
    assert_eq!(parse_i64("+7"), Some(7));
    assert_eq!(parse_i64("-15"), Some(-15));
    assert_eq!(parse_i64("9223372036854775807"), Some(i64::MAX));
    assert_eq!(parse_i64("-9223372036854775808"), Some(i64::MIN));
}

#[test]
fn parse_i64_refuses_what_is_not_a_number() {
    for s in ["", "-", "+", "1a", " 1", "1 ", "--1", "1.0", "9223372036854775808", "-9223372036854775809", "99999999999999999999999"] {
        assert_eq!(parse_i64(s), None, "{:?}", s);
        assert_eq!(parse_i64(s), s.parse::<i64>().ok(), "{:?}", s);
    }
}

#[test]
fn requested_visibility_reads_the_query() {
    assert_eq!(requested_visibility(""), None);
    assert_eq!(requested_visibility("visibility=3"), Some(3));
    assert_eq!(requested_visibility("?visibility=-2&other=1"), Some(-2));
    assert_eq!(requested_visibility("other=1&visibility=10"), Some(10));
    assert_eq!(requested_visibility("visibility=high"), None);
    assert_eq!(requested_visibility("visible=3"), None);
}

#[test]
fn requested_visibility_ignores_queries_that_are_not_ascii() {
    assert_eq!(requested_visibility("é"), None);
    assert_eq!(requested_visibility("a=1&é"), None);
    assert_eq!(requested_visibility("visibility=3&é"), None);
}

#[test]
fn zero_padded_decimal_writes_six_digits() {
    assert_eq!(zero_padded_decimal(1, 6), "000001");
    assert_eq!(zero_padded_decimal(42, 6), "000042");
    assert_eq!(zero_padded_decimal(1234567, 6), "1234567");
    assert_eq!(zero_padded_decimal(0, 0), "0");
    for n in [0usize, 7, 10, 99, 123456, usize::MAX] {
        assert_eq!(zero_padded_decimal(n, 6), format!("{:06}", n));
    }
}
