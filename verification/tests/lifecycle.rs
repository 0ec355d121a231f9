//! The lifecycle calls bypass the edit envelope and carry their own fixed
//! method names and parameter shapes.

use xi_client::Client;
use xi_client::Json;
use xi_client::Message;
use xi_client::Outbound;
use xi_client::ViewId;

fn s(text: &str) -> String {
    text.to_string()
}

fn vid() -> ViewId {
    ViewId(s("view-id-1"))
}

fn note(method: &str, params: Json) -> Outbound {
    Outbound::Notification(Message { method: s(method), params })
}

#[test]
fn new_view_without_path_sends_empty_object() {
    let c = Client::new();
    let got = c.new_view(None).unwrap();
    let want = Outbound::Request(Message { method: s("new_view"), params: Json::Obj(vec![]) });
    assert_eq!(got, want);
}

#[test]
fn new_view_with_path_names_the_file() {
    let c = Client::new();
    let got = c.new_view(Some(s("foo.txt"))).unwrap();
    let want = Outbound::Request(Message {
        method: s("new_view"),
        params: Json::Obj(vec![(s("file_path"), Json::Str(s("foo.txt")))]),
    });
    assert_eq!(got, want);
}

#[test]
fn close_view_names_the_view() {
    let c = Client::new();
    let got = c.close_view(vid()).unwrap();
    let want = note(
        "close_view",
        Json::Obj(vec![(s("view_id"), Json::Str(s("view-id-1")))]),
    );
    assert_eq!(got, want);
}

#[test]
fn save_names_view_and_path() {
    let c = Client::new();
    let got = c.save(vid(), "out.txt").unwrap();
    let want = note(
        "save",
        Json::Obj(vec![
            (s("view_id"), Json::Str(s("view-id-1"))),
            (s("file_path"), Json::Str(s("out.txt"))),
        ]),
    );
    assert_eq!(got, want);
}

#[test]
fn set_theme_names_the_theme() {
    let c = Client::new();
    let got = c.set_theme("InspiredGitHub").unwrap();
    let want = note(
        "set_theme",
        Json::Obj(vec![(s("theme_name"), Json::Str(s("InspiredGitHub")))]),
    );
    assert_eq!(got, want);
}

#[test]
fn client_started_omits_absent_directories() {
    let c = Client::new();
    assert_eq!(
        c.client_started(None, None).unwrap(),
        note("client_started", Json::Obj(vec![]))
    );
    assert_eq!(
        c.client_started(Some("/etc/xi"), None).unwrap(),
        note(
            "client_started",
            Json::Obj(vec![(s("config_dir"), Json::Str(s("/etc/xi")))])
        )
    );
    assert_eq!(
        c.client_started(None, Some("/plug")).unwrap(),
        note(
            "client_started",
            Json::Obj(vec![(s("client_extra_dir"), Json::Str(s("/plug")))])
        )
    );
    assert_eq!(
        c.client_started(Some("/etc/xi"), Some("/plug")).unwrap(),
        note(
            "client_started",
            Json::Obj(vec![
                (s("config_dir"), Json::Str(s("/etc/xi"))),
                (s("client_extra_dir"), Json::Str(s("/plug"))),
            ])
        )
    );
}

#[test]
fn start_and_stop_plugin_name_view_and_plugin() {
    let c = Client::new();
    let want_params = Json::Obj(vec![
        (s("view_id"), Json::Str(s("view-id-1"))),
        (s("plugin_name"), Json::Str(s("syntect"))),
    ]);
    assert_eq!(c.start_plugin(vid(), "syntect").unwrap(), note("start", want_params));
    let want_params = Json::Obj(vec![
        (s("view_id"), Json::Str(s("view-id-1"))),
        (s("plugin_name"), Json::Str(s("syntect"))),
    ]);
    assert_eq!(c.stop_plugin(vid(), "syntect").unwrap(), note("stop", want_params));
}

#[test]
fn notify_plugin_nests_the_forwarded_notification() {
    let c = Client::new();
    let inner = Json::Obj(vec![(s("level"), Json::UInt(3))]);
    let got = c.notify_plugin(vid(), "syntect", "ping", &inner).unwrap();
    let want = note(
        "plugin_rpc",
        Json::Obj(vec![
            (s("view_id"), Json::Str(s("view-id-1"))),
            (s("receiver"), Json::Str(s("syntect"))),
            (
                s("notification"),
                Json::Obj(vec![
                    (s("method"), Json::Str(s("ping"))),
                    (
                        s("params"),
                        Json::Obj(vec![(s("level"), Json::UInt(3))]),
                    ),
                ]),
            ),
        ]),
    );
    assert_eq!(got, want);
    // the forwarded parameters were copied, not consumed
    assert_eq!(inner, Json::Obj(vec![(s("level"), Json::UInt(3))]));
}
