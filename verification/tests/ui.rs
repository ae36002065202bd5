use clash_tui::state::store::AppState;
use clash_tui::ui::components::help_bar::help_lines;
use clash_tui::ui::components::status_bar::{status_message, status_text};
use clash_tui::ui::components::tabs::tab_title;
use clash_tui::ui::pages::PageId;

#[test]
fn page_cycle() {
    let all = PageId::all();
    assert_eq!(all.len(), 7);
    for p in all.iter() {
        assert_eq!(p.next().prev(), *p);
        let mut q = *p;
        for _ in 0..7 {
            q = q.next();
        }
        assert_eq!(q, *p);
    }
    assert_eq!(PageId::Subscriptions.next(), PageId::Dashboard);
    assert_eq!(PageId::Dashboard.prev(), PageId::Subscriptions);
    assert_eq!(PageId::Logs.label(), "Mihomo Logs");
}

#[test]
fn tab_titles_pad_labels() {
    assert_eq!(tab_title(PageId::Connections), "  Conns  ");
}

#[test]
fn status_bar_text() {
    let mut s = AppState::default();
    s.memory_used_bytes = 50 * 1024 * 1024 + 7;
    s.upload_speed = 1536;
    s.download_speed = 3 * 1024 * 1024;
    s.active_conn_count = 12;
    assert_eq!(
        status_text(&s),
        "Disconnected | Mode: rule | Mem: 50MB | ↑ 1.5KB ↓ 3.0MB | Conns: 12 "
    );
    assert_eq!(status_message(&s), None);
    s.set_status("saved".to_string());
    assert_eq!(status_message(&s).as_deref(), Some(" saved "));
}

#[test]
fn help_lines_per_page() {
    let d = help_lines(PageId::Dashboard);
    assert_eq!(d.len(), 2);
    assert_eq!(d[0][0], (" Tab ".to_string(), " Switch page  ".to_string()));
    assert_eq!(d[1][1], (" r ".to_string(), " Refresh  ".to_string()));
    let r = help_lines(PageId::Rules);
    assert_eq!(r.len(), 1);
    assert_eq!(r[0].len(), 3);
    let l = help_lines(PageId::Logs);
    assert_eq!(l[0][1].1, " Filter: error/warn/info  ");
}
