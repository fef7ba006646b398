use modlist_manager::assets::{
    master_css_content, modlist_edit_stylesheet, modlist_folder_edit_stylesheet, modlist_javascript,
    modlist_merge_javascript, modlist_merge_stylesheet, modlist_stylesheet, root_stylesheet, EDIT_CSS,
    FOLDER_EDIT_CSS, MASTER_CSS, MERGE_CSS, MERGE_JS, MODLIST_CSS, MODLIST_JS, ROOT_CSS,
};

#[test]
fn each_page_gets_its_own_style_and_script() {
    assert_eq!(master_css_content(), MASTER_CSS);
    assert_eq!(root_stylesheet(), ROOT_CSS);
    assert_eq!(modlist_stylesheet(), MODLIST_CSS);
    assert_eq!(modlist_javascript(), MODLIST_JS);
    assert_eq!(modlist_edit_stylesheet(), EDIT_CSS);
    assert_eq!(modlist_folder_edit_stylesheet(), FOLDER_EDIT_CSS);
    assert_eq!(modlist_merge_stylesheet(), MERGE_CSS);
    assert_eq!(modlist_merge_javascript(), MERGE_JS);
}

#[test]
fn the_shared_style_sets_the_page_font() {
    assert!(master_css_content().contains("font-family: Bahnschrift;"));
}

#[test]
fn the_merge_script_speaks_the_merge_protocol() {
    assert!(modlist_merge_javascript().contains("new WebSocket('ws://localhost:5001', 'rust-websocket')"));
}
