use botui::desktop::{probe_url, RunningMode, ServiceMonitor, TrayManager};
use botui::drive::{sort_entries, FileItem};
use botui::health::{health_probe_url, health_report, liveness_report};
use botui::backend::BackendTarget;

#[test]
fn monitor_watches_five_services() {
    let m = ServiceMonitor::new();
    let names: Vec<&str> = m.services.iter().map(|s| s.name.as_str()).collect();
    assert_eq!(names, vec!["API", "Directory", "LLM", "Database", "Cache"]);
    assert!(m.services.iter().all(|s| !s.running));
    assert_eq!(m.services[3].port, 5432);
    assert_eq!(m.services[4].url, "redis://localhost:6379");
}

#[test]
fn only_http_services_are_probed() {
    assert_eq!(probe_url("https://localhost:8080"), Some("https://localhost:8080/health".to_string()));
    assert_eq!(probe_url("http://x"), Some("http://x/health".to_string()));
    assert_eq!(probe_url("redis://localhost:6379"), None);
    let m = ServiceMonitor::new();
    let t = m.probe_targets();
    assert_eq!(t.len(), 5);
    assert_eq!(t[2], Some("https://localhost:8081/health".to_string()));
    assert_eq!(t[3], None);
}

#[test]
fn probe_results_are_recorded() {
    let mut m = ServiceMonitor::new();
    let out = m.record_probes(&vec![true, false, true, true, true]);
    let running: Vec<bool> = out.iter().map(|s| s.running).collect();
    assert_eq!(running, vec![true, false, true, false, false]);
    assert_eq!(out, m.services);
}

#[test]
fn tray_reports_desktop_mode() {
    let t = TrayManager::new();
    assert_eq!(t.running_mode, RunningMode::Desktop);
    assert_eq!(t.get_mode_string(), "Desktop");
    assert_eq!(t.get_hostname(), None);
    let s = TrayManager { hostname: Some("box".to_string()), running_mode: RunningMode::Server };
    assert_eq!(s.get_mode_string(), "Server");
    assert_eq!(s.get_hostname(), Some("box".to_string()));
}

fn item(name: &str, is_dir: bool) -> FileItem {
    FileItem { name: name.to_string(), path: format!("/d/{}", name), is_dir }
}

#[test]
fn folders_come_first_then_names() {
    let out = sort_entries(vec![
        item("b.txt", false),
        item("Zeta", true),
        item("a.txt", false),
        item("alpha", true),
        item("B.txt", false),
    ]);
    let names: Vec<&str> = out.iter().map(|f| f.name.as_str()).collect();
    assert_eq!(names, vec!["Zeta", "alpha", "B.txt", "a.txt", "b.txt"]);
}

#[test]
fn empty_listing_stays_empty() {
    assert!(sort_entries(vec![]).is_empty());
}

#[test]
fn health_reports() {
    let ok = health_report(true);
    assert_eq!(ok.status_code, 200);
    assert_eq!(ok.status, "healthy");
    assert_eq!(ok.service, "botui");
    assert_eq!(ok.mode, Some("web".to_string()));
    let bad = health_report(false);
    assert_eq!(bad.status_code, 503);
    assert_eq!(bad.status, "unhealthy");
    assert_eq!(bad.error, Some("botserver unreachable".to_string()));
    let live = liveness_report("1.2.3");
    assert_eq!((live.status_code, live.status.as_str(), live.version.as_str()), (200, "ok", "1.2.3"));
    let t = BackendTarget::resolve(Some("http://b:1".to_string()));
    assert_eq!(health_probe_url(&t), "http://b:1/health");
}
