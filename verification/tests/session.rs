use nix_inspect::data::ListData;
use nix_inspect::data::NixValue;
use nix_inspect::data::PathData;
use nix_inspect::input::InputModel;
use nix_inspect::input::InputState;
use nix_inspect::input::KeyCode;
use nix_inspect::input::KeyEvent;
use nix_inspect::model::Config;
use nix_inspect::model::Message;
use nix_inspect::model::Model;
use nix_inspect::model::RunningState;
use nix_inspect::model::ViewData;
use nix_inspect::key_handler::handle_key;
use nix_inspect::path::BrowserPath;
use nix_inspect::update::UpdateContext;

fn fresh() -> (Model, UpdateContext, ViewData) {
    let model = Model::new(Config { bookmarks: Vec::new() }, Vec::new());
    let ctx = UpdateContext::new();
    let vd = ViewData { current_list_height: 10 };
    (model, ctx, vd)
}

fn step(ctx: &mut UpdateContext, vd: &ViewData, model: &mut Model, msg: Message) {
    let mut current = Some(msg);
    while let Some(m) = current {
        current = ctx.update(vd, model, m);
    }
}

fn list_of(names: &[&str]) -> PathData {
    PathData::List(ListData {
        cursor: 0,
        list: names.iter().map(|s| s.to_string()).collect(),
    })
}

fn chr(c: char) -> Message {
    Message::SearchInput(KeyEvent { code: KeyCode::Char(c), ctrl: false })
}

fn nav_chr(c: char) -> Message {
    Message::NavigatorInput(KeyEvent { code: KeyCode::Char(c), ctrl: false })
}

fn queued_exprs(ctx: &UpdateContext) -> Vec<std::string::String> {
    ctx.queued.iter().map(|p| p.to_expr()).collect()
}

#[test]
fn list_cursor_wraps_at_both_ends() {
    let (mut model, mut ctx, vd) = fresh();
    let p = BrowserPath::parse("pkgs");
    step(&mut ctx, &vd, &mut model, Message::CurrentPath(p.clone()));
    step(&mut ctx, &vd, &mut model, Message::Data(p.clone(), list_of(&["a", "b", "c", "d"])));
    assert_eq!(model.path_data.current_list(&p).unwrap().cursor, 0);
    step(&mut ctx, &vd, &mut model, Message::ListUp);
    assert_eq!(model.path_data.current_list(&p).unwrap().cursor, 3);
    step(&mut ctx, &vd, &mut model, Message::ListDown);
    assert_eq!(model.path_data.current_list(&p).unwrap().cursor, 0);
}

#[test]
fn single_entry_list_stays_put() {
    let (mut model, mut ctx, vd) = fresh();
    let p = BrowserPath::parse("one");
    step(&mut ctx, &vd, &mut model, Message::CurrentPath(p.clone()));
    step(&mut ctx, &vd, &mut model, Message::Data(p.clone(), list_of(&["only"])));
    step(&mut ctx, &vd, &mut model, Message::ListUp);
    assert_eq!(model.path_data.current_list(&p).unwrap().cursor, 0);
    step(&mut ctx, &vd, &mut model, Message::ListDown);
    assert_eq!(model.path_data.current_list(&p).unwrap().cursor, 0);
}

#[test]
fn empty_list_moves_are_no_ops() {
    let (mut model, mut ctx, vd) = fresh();
    let p = BrowserPath::parse("none");
    step(&mut ctx, &vd, &mut model, Message::CurrentPath(p.clone()));
    step(&mut ctx, &vd, &mut model, Message::Data(p.clone(), list_of(&[])));
    step(&mut ctx, &vd, &mut model, Message::ListUp);
    step(&mut ctx, &vd, &mut model, Message::ListDown);
    step(&mut ctx, &vd, &mut model, Message::PageDown);
    assert_eq!(model.path_data.current_list(&p).unwrap().cursor, 0);
}

#[test]
fn page_moves_by_half_height_and_clamps() {
    let (mut model, mut ctx, vd) = fresh();
    let p = BrowserPath::parse("long");
    let names: Vec<std::string::String> = (0..12).map(|i| format!("n{}", i)).collect();
    let name_refs: Vec<&str> = names.iter().map(|s| s.as_str()).collect();
    step(&mut ctx, &vd, &mut model, Message::CurrentPath(p.clone()));
    step(&mut ctx, &vd, &mut model, Message::Data(p.clone(), list_of(&name_refs)));
    step(&mut ctx, &vd, &mut model, Message::PageDown);
    assert_eq!(model.path_data.current_list(&p).unwrap().cursor, 5);
    step(&mut ctx, &vd, &mut model, Message::PageDown);
    assert_eq!(model.path_data.current_list(&p).unwrap().cursor, 10);
    step(&mut ctx, &vd, &mut model, Message::PageDown);
    assert_eq!(model.path_data.current_list(&p).unwrap().cursor, 11);
    step(&mut ctx, &vd, &mut model, Message::PageUp);
    assert_eq!(model.path_data.current_list(&p).unwrap().cursor, 6);
}

#[test]
fn search_typing_selects_closest_match() {
    let (mut model, mut ctx, vd) = fresh();
    let p = BrowserPath::parse("pkgs");
    step(&mut ctx, &vd, &mut model, Message::CurrentPath(p.clone()));
    step(&mut ctx, &vd, &mut model, Message::Data(p.clone(), list_of(&["foo", "bar", "food", "baz"])));
    step(&mut ctx, &vd, &mut model, Message::SearchEnter);
    step(&mut ctx, &vd, &mut model, chr('f'));
    step(&mut ctx, &vd, &mut model, chr('o'));
    step(&mut ctx, &vd, &mut model, chr('o'));
    // Matches at 0 and 2; from cursor 0 the minimum distance is index 0.
    assert_eq!(model.path_data.current_list(&p).unwrap().cursor, 0);
}

#[test]
fn committed_search_steps_and_wraps() {
    let (mut model, mut ctx, vd) = fresh();
    let p = BrowserPath::parse("pkgs");
    step(&mut ctx, &vd, &mut model, Message::CurrentPath(p.clone()));
    step(&mut ctx, &vd, &mut model, Message::Data(p.clone(), list_of(&["foo", "bar", "food", "baz"])));
    step(&mut ctx, &vd, &mut model, Message::SearchEnter);
    step(&mut ctx, &vd, &mut model, chr('f'));
    step(&mut ctx, &vd, &mut model, chr('o'));
    step(&mut ctx, &vd, &mut model, chr('o'));
    step(&mut ctx, &vd, &mut model, Message::SearchInput(KeyEvent::plain(KeyCode::Enter)));
    match &model.search_input {
        InputState::Active(b) => assert!(!b.typing),
        InputState::Normal => panic!("search should stay open after Enter"),
    }
    step(&mut ctx, &vd, &mut model, Message::SearchNext);
    assert_eq!(model.path_data.current_list(&p).unwrap().cursor, 2);
    step(&mut ctx, &vd, &mut model, Message::SearchNext);
    assert_eq!(model.path_data.current_list(&p).unwrap().cursor, 0);
    step(&mut ctx, &vd, &mut model, Message::SearchPrev);
    assert_eq!(model.path_data.current_list(&p).unwrap().cursor, 2);
}

#[test]
fn search_escape_closes_the_mode() {
    let (mut model, mut ctx, vd) = fresh();
    step(&mut ctx, &vd, &mut model, Message::SearchEnter);
    assert!(matches!(model.search_input, InputState::Active(_)));
    step(&mut ctx, &vd, &mut model, Message::SearchInput(KeyEvent::plain(KeyCode::Esc)));
    assert!(matches!(model.search_input, InputState::Normal));
}

#[test]
fn tab_completion_cycles_through_prefix_matches() {
    let (mut model, mut ctx, vd) = fresh();
    let parent = BrowserPath::parse("p");
    step(&mut ctx, &vd, &mut model, Message::CurrentPath(parent.clone()));
    step(
        &mut ctx,
        &vd,
        &mut model,
        Message::Data(parent.clone(), list_of(&["alpha", "beta", "alphb", "gamma"])),
    );
    step(&mut ctx, &vd, &mut model, Message::NavigatorEnter);
    match &model.path_navigator_input {
        InputState::Active(b) => {
            let text: std::string::String = b.input.iter().collect();
            assert_eq!(text, "p.");
        },
        InputState::Normal => panic!("navigator should be open"),
    }
    step(&mut ctx, &vd, &mut model, nav_chr('a'));
    step(&mut ctx, &vd, &mut model, nav_chr('l'));
    step(&mut ctx, &vd, &mut model, nav_chr('p'));
    assert_eq!(model.path_data.current_list(&parent).unwrap().cursor, 0);
    let tab = Message::NavigatorInput(KeyEvent::plain(KeyCode::Tab));
    step(&mut ctx, &vd, &mut model, tab);
    assert_eq!(model.path_data.current_list(&parent).unwrap().cursor, 2);
    match &model.path_navigator_input {
        InputState::Active(b) => {
            let text: std::string::String = b.input.iter().collect();
            assert_eq!(text, "p.alphb");
        },
        InputState::Normal => panic!("navigator should be open"),
    }
    assert_eq!(model.prev_tab_completion.as_deref(), Some("alp"));
    let tab = Message::NavigatorInput(KeyEvent::plain(KeyCode::Tab));
    step(&mut ctx, &vd, &mut model, tab);
    assert_eq!(model.path_data.current_list(&parent).unwrap().cursor, 0);
    let tab = Message::NavigatorInput(KeyEvent::plain(KeyCode::Tab));
    step(&mut ctx, &vd, &mut model, tab);
    assert_eq!(model.path_data.current_list(&parent).unwrap().cursor, 2);
    let tab = Message::NavigatorInput(KeyEvent::plain(KeyCode::Tab));
    step(&mut ctx, &vd, &mut model, tab);
    assert_eq!(model.path_data.current_list(&parent).unwrap().cursor, 0);
}

#[test]
fn end_to_end_root_menu_to_child_fetch() {
    let (mut model, mut ctx, vd) = fresh();
    // Two steps down the root menu select its third entry, and the
    // policy fetches the tree root.
    step(&mut ctx, &vd, &mut model, Message::ListDown);
    assert_eq!(model.root_view_state, 1);
    assert_eq!(queued_exprs(&ctx), Vec::<std::string::String>::new());
    step(&mut ctx, &vd, &mut model, Message::ListDown);
    assert_eq!(model.root_view_state, 2);
    assert_eq!(queued_exprs(&ctx), vec!["".to_string()]);
    ctx.queued.clear();
    // The simulated evaluator answers with the root attribute names.
    let root = BrowserPath(Vec::new());
    step(
        &mut ctx,
        &vd,
        &mut model,
        Message::Data(root.clone(), PathData::from_nix_value(NixValue::Attrs(vec![
            "a".to_string(),
            "b".to_string(),
        ]))),
    );
    ctx.queued.clear();
    // Entering shows the root list with the cursor at the top; its
    // selected child is fetched as it is absent.
    step(&mut ctx, &vd, &mut model, Message::EnterItem);
    let l = model.path_data.current_list(&root).unwrap();
    assert_eq!(l.cursor, 0);
    assert_eq!(l.list, vec!["a".to_string(), "b".to_string()]);
    assert_eq!(queued_exprs(&ctx), vec!["a".to_string()]);
    ctx.queued.clear();
    // Moving down selects "b", which is absent from the cache, so the
    // policy fetches it.
    step(&mut ctx, &vd, &mut model, Message::ListDown);
    assert_eq!(model.path_data.current_list(&root).unwrap().cursor, 1);
    assert_eq!(queued_exprs(&ctx), vec!["b".to_string()]);
}

#[test]
fn bookmark_lifecycle_names_and_clamps() {
    let (mut model, mut ctx, vd) = fresh();
    let p = BrowserPath::parse("a.b.c");
    step(&mut ctx, &vd, &mut model, Message::CurrentPath(p.clone()));
    // Naming starts with an empty buffer here: nothing is cached at the
    // current path, so there is no selected child to seed it with.
    step(&mut ctx, &vd, &mut model, Message::BookmarkInputEnter);
    assert!(!ctx.save_requested);
    step(&mut ctx, &vd, &mut model, Message::CreateBookmark);
    assert_eq!(model.config.bookmarks.len(), 1);
    assert_eq!(model.config.bookmarks[0].display, "c");
    assert_eq!(model.config.bookmarks[0].path.to_expr(), "a.b.c");
    assert!(matches!(model.new_bookmark_input, InputState::Normal));
    assert!(ctx.save_requested);
    // Deleting the last remaining bookmark clamps the cursor to zero.
    step(&mut ctx, &vd, &mut model, Message::DeleteBookmark);
    assert_eq!(model.config.bookmarks.len(), 0);
    assert_eq!(model.bookmark_view_state, 0);
}

#[test]
fn bookmark_name_buffer_overrides_segment() {
    let (mut model, mut ctx, vd) = fresh();
    let p = BrowserPath::parse("a.b.c");
    step(&mut ctx, &vd, &mut model, Message::CurrentPath(p.clone()));
    step(&mut ctx, &vd, &mut model, Message::BookmarkInputEnter);
    for c in ['m', 'y'] {
        step(
            &mut ctx,
            &vd,
            &mut model,
            Message::BookmarkInput(KeyEvent { code: KeyCode::Char(c), ctrl: false }),
        );
    }
    step(&mut ctx, &vd, &mut model, Message::CreateBookmark);
    assert_eq!(model.config.bookmarks[0].display, "my");
}

#[test]
fn back_pops_but_never_the_root_menu() {
    let (mut model, mut ctx, vd) = fresh();
    let p = BrowserPath::parse("a");
    step(&mut ctx, &vd, &mut model, Message::CurrentPath(p.clone()));
    assert_eq!(model.visit_stack.len(), 2);
    step(&mut ctx, &vd, &mut model, Message::Back);
    assert_eq!(model.visit_stack.len(), 1);
    step(&mut ctx, &vd, &mut model, Message::Back);
    assert_eq!(model.visit_stack.len(), 1);
}

#[test]
fn refresh_requeues_current_selection_and_parent() {
    let (mut model, mut ctx, vd) = fresh();
    let parent = BrowserPath::parse("a");
    let p = BrowserPath::parse("a.b");
    step(&mut ctx, &vd, &mut model, Message::CurrentPath(parent.clone()));
    step(&mut ctx, &vd, &mut model, Message::CurrentPath(p.clone()));
    step(&mut ctx, &vd, &mut model, Message::Data(p.clone(), list_of(&["x", "y"])));
    ctx.queued.clear();
    step(&mut ctx, &vd, &mut model, Message::Refresh);
    assert_eq!(
        queued_exprs(&ctx),
        vec!["a.b".to_string(), "a.b.x".to_string(), "a".to_string()]
    );
}

#[test]
fn quit_reaches_the_terminal_state() {
    let (mut model, mut ctx, vd) = fresh();
    let mut inbox = vec![
        Message::Quit,
        Message::ListDown,
        Message::EnterItem,
        Message::SearchEnter,
    ];
    let mut drained = 0;
    while model.running_state != RunningState::Stopped && !inbox.is_empty() {
        let msg = inbox.remove(0);
        drained += 1;
        step(&mut ctx, &vd, &mut model, msg);
    }
    // The terminal state is reached on the first message; the rest stay
    // queued, undrained and harmless.
    assert_eq!(model.running_state, RunningState::Stopped);
    assert_eq!(drained, 1);
    assert_eq!(inbox.len(), 3);
    assert_eq!(model.root_view_state, 0);
}

#[test]
fn navigator_edit_moves_breadcrumb_to_typed_parent() {
    let (mut model, mut ctx, vd) = fresh();
    let root = BrowserPath(Vec::new());
    let a = BrowserPath::parse("a");
    step(&mut ctx, &vd, &mut model, Message::CurrentPath(a.clone()));
    step(&mut ctx, &vd, &mut model, Message::Data(a.clone(), list_of(&["bb", "cc"])));
    step(&mut ctx, &vd, &mut model, Message::Data(root.clone(), list_of(&["a", "z"])));
    step(&mut ctx, &vd, &mut model, Message::NavigatorEnter);
    // Typing "b" makes the buffer "a.b": the breadcrumb stays anchored at
    // "a", whose list pre-selects the first child starting with "b".
    step(&mut ctx, &vd, &mut model, nav_chr('b'));
    assert_eq!(model.path_data.current_list(&a).unwrap().cursor, 0);
    // Two backspaces leave "a": the parent becomes the root, the
    // breadcrumb re-anchors there, and the root list pre-selects "a".
    step(&mut ctx, &vd, &mut model, Message::NavigatorInput(KeyEvent::plain(KeyCode::Backspace)));
    step(&mut ctx, &vd, &mut model, Message::NavigatorInput(KeyEvent::plain(KeyCode::Backspace)));
    assert_eq!(model.visit_stack.len(), 2);
    let top = model.visit_stack.current().unwrap();
    assert_eq!(top.to_expr(), "");
    assert_eq!(model.path_data.current_list(&root).unwrap().cursor, 0);
}

#[test]
fn committed_navigator_steps_through_prefix_matches() {
    let (mut model, mut ctx, vd) = fresh();
    let parent = BrowserPath::parse("p");
    step(&mut ctx, &vd, &mut model, Message::CurrentPath(parent.clone()));
    step(
        &mut ctx,
        &vd,
        &mut model,
        Message::Data(parent.clone(), list_of(&["alpha", "beta", "alphb", "gamma"])),
    );
    step(&mut ctx, &vd, &mut model, Message::NavigatorEnter);
    step(&mut ctx, &vd, &mut model, nav_chr('a'));
    step(&mut ctx, &vd, &mut model, nav_chr('l'));
    step(&mut ctx, &vd, &mut model, nav_chr('p'));
    step(&mut ctx, &vd, &mut model, Message::NavigatorInput(KeyEvent::plain(KeyCode::Enter)));
    step(&mut ctx, &vd, &mut model, Message::NavigatorNext);
    assert_eq!(model.path_data.current_list(&parent).unwrap().cursor, 2);
    step(&mut ctx, &vd, &mut model, Message::NavigatorNext);
    assert_eq!(model.path_data.current_list(&parent).unwrap().cursor, 0);
    step(&mut ctx, &vd, &mut model, Message::NavigatorPrev);
    assert_eq!(model.path_data.current_list(&parent).unwrap().cursor, 2);
}

#[test]
fn enter_item_descends_into_selected_child() {
    let (mut model, mut ctx, vd) = fresh();
    let p = BrowserPath::parse("a");
    step(&mut ctx, &vd, &mut model, Message::CurrentPath(p.clone()));
    step(&mut ctx, &vd, &mut model, Message::Data(p.clone(), list_of(&["x", "y"])));
    step(&mut ctx, &vd, &mut model, Message::ListDown);
    step(&mut ctx, &vd, &mut model, Message::EnterItem);
    let top = model.visit_stack.current().unwrap();
    assert_eq!(top.to_expr(), "a.y");
}

#[test]
fn enter_item_follows_bookmarks() {
    let mut model = Model::new(
        Config {
            bookmarks: vec![nix_inspect::model::Bookmark {
                display: "host".to_string(),
                path: BrowserPath::parse("cfg.host"),
            }],
        },
        Vec::new(),
    );
    let mut ctx = UpdateContext::new();
    let vd = ViewData { current_list_height: 10 };
    // Root menu entry 0 opens the bookmark list; entering it jumps to
    // the bookmark's target, and the policy fetches that path.
    step(&mut ctx, &vd, &mut model, Message::EnterItem);
    ctx.queued.clear();
    step(&mut ctx, &vd, &mut model, Message::EnterItem);
    let top = model.visit_stack.current().unwrap();
    assert_eq!(top.to_expr(), "cfg.host");
    assert_eq!(queued_exprs(&ctx), vec!["cfg.host".to_string()]);
}

#[test]
fn data_for_an_off_screen_path_is_absorbed() {
    let (mut model, mut ctx, vd) = fresh();
    let elsewhere = BrowserPath::parse("not.on.screen");
    step(&mut ctx, &vd, &mut model, Message::Data(elsewhere.clone(), PathData::Int(5)));
    assert!(matches!(model.path_data.get(&elsewhere), Some(PathData::Int(5))));
    assert_eq!(model.visit_stack.len(), 1);
}

#[test]
fn key_router_respects_mode_precedence() {
    let (mut model, _ctx, _vd) = fresh();
    let q = KeyEvent { code: KeyCode::Char('q'), ctrl: false };
    assert!(matches!(handle_key(q, &model), Some(Message::Quit)));
    let ctrl_d = KeyEvent { code: KeyCode::Char('d'), ctrl: true };
    assert!(matches!(handle_key(ctrl_d, &model), Some(Message::PageDown)));
    let plain_d = KeyEvent { code: KeyCode::Char('d'), ctrl: false };
    assert!(matches!(handle_key(plain_d, &model), Some(Message::DeleteBookmark)));
    // With a live committed search buffer, `n` steps through matches.
    model.search_input = InputState::Active(InputModel {
        typing: false,
        input: vec!['f'],
        cursor_position: 1,
    });
    let n = KeyEvent { code: KeyCode::Char('n'), ctrl: false };
    assert!(matches!(handle_key(n, &model), Some(Message::SearchNext)));
    // While typing, the same key edits the buffer instead.
    model.search_input = InputState::Active(InputModel {
        typing: true,
        input: vec!['f'],
        cursor_position: 1,
    });
    assert!(matches!(handle_key(n, &model), Some(Message::SearchInput(_))));
}

#[test]
fn navigator_escape_closes_the_mode() {
    let (mut model, mut ctx, vd) = fresh();
    step(&mut ctx, &vd, &mut model, Message::NavigatorEnter);
    assert!(matches!(model.path_navigator_input, InputState::Active(_)));
    step(&mut ctx, &vd, &mut model, Message::NavigatorInput(KeyEvent::plain(KeyCode::Esc)));
    assert!(matches!(model.path_navigator_input, InputState::Normal));
}

#[test]
fn delete_bookmark_mid_list_keeps_cursor_position() {
    let mut model = Model::new(
        Config {
            bookmarks: vec![
                nix_inspect::model::Bookmark {
                    display: "one".to_string(),
                    path: BrowserPath::parse("a"),
                },
                nix_inspect::model::Bookmark {
                    display: "two".to_string(),
                    path: BrowserPath::parse("b"),
                },
                nix_inspect::model::Bookmark {
                    display: "three".to_string(),
                    path: BrowserPath::parse("c"),
                },
            ],
        },
        Vec::new(),
    );
    let mut ctx = UpdateContext::new();
    let vd = ViewData { current_list_height: 10 };
    model.bookmark_view_state = 1;
    step(&mut ctx, &vd, &mut model, Message::DeleteBookmark);
    assert_eq!(model.config.bookmarks.len(), 2);
    assert_eq!(model.config.bookmarks[1].display, "three");
    assert_eq!(model.bookmark_view_state, 1);
    // Deleting the new last entry clamps the cursor back.
    step(&mut ctx, &vd, &mut model, Message::DeleteBookmark);
    assert_eq!(model.bookmark_view_state, 0);
    assert!(ctx.save_requested);
}

#[test]
fn arrow_keys_map_to_navigation() {
    let (model, _ctx, _vd) = fresh();
    assert!(matches!(
        handle_key(KeyEvent::plain(KeyCode::Left), &model),
        Some(Message::Back)
    ));
    assert!(matches!(
        handle_key(KeyEvent::plain(KeyCode::Down), &model),
        Some(Message::ListDown)
    ));
    assert!(matches!(
        handle_key(KeyEvent::plain(KeyCode::Up), &model),
        Some(Message::ListUp)
    ));
    assert!(matches!(
        handle_key(KeyEvent::plain(KeyCode::Right), &model),
        Some(Message::EnterItem)
    ));
    assert!(handle_key(KeyEvent::plain(KeyCode::Other), &model).is_none());
}
