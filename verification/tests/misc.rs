use session_mux::config::{Cluster, ClusterInfo, Context, ContextInfo, KubernetesConfig};
use session_mux::error::MyError;
use session_mux::proxy::ProxyMethod;
use session_mux::text::{chars_of, contains_phrase, find, same_text};
use session_mux::tray::{shows_on_click, TrayCommand};

#[test]
fn errors_print_with_their_label() {
    let m = || "boom".to_string();
    assert_eq!(MyError::KubeError(m()).to_string(), "KubeError: boom");
    assert_eq!(MyError::IOError(m()).to_string(), "IOError: boom");
    assert_eq!(MyError::SerdeYamlError(m()).to_string(), "SerdeYamlError: boom");
    assert_eq!(MyError::KubeconfigError(m()).to_string(), "KubeconfigError: boom");
    assert_eq!(MyError::OtherError(m()).to_string(), " OtherError: boom");
    assert_eq!(MyError::WatchError(m()).to_string(), "Error: boom");
    assert_eq!(MyError::HttpError(m()).to_string(), "Error: boom");
    assert_eq!(MyError::NoClient(m()).to_string(), "Error: boom");
    assert_eq!(MyError::InvalidMethod(m()).to_string(), "InvalidMethod: boom");
    assert_eq!(MyError::InvalidUuid(m()).to_string(), "InvalidUuid: boom");
    assert_eq!(MyError::KubeError(String::new()).to_string(), "KubeError: ");
}

#[test]
fn error_message_is_what_it_carries() {
    assert_eq!(MyError::NoClient("none yet".to_string()).message(), "none yet");
    assert_eq!(MyError::InvalidUuid(String::new()).message(), "");
}

#[test]
fn methods_are_read_in_any_case() {
    assert_eq!(ProxyMethod::parse("GET").unwrap(), ProxyMethod::Get);
    assert_eq!(ProxyMethod::parse("get").unwrap(), ProxyMethod::Get);
    assert_eq!(ProxyMethod::parse("Post").unwrap(), ProxyMethod::Post);
    assert_eq!(ProxyMethod::parse("pUt").unwrap(), ProxyMethod::Put);
    assert_eq!(ProxyMethod::parse("delete").unwrap(), ProxyMethod::Delete);
    assert_eq!(ProxyMethod::parse("patch").unwrap(), ProxyMethod::Patch);
    assert_eq!(ProxyMethod::parse("po\u{17f}t").unwrap(), ProxyMethod::Post);
}

#[test]
fn unknown_methods_are_invalid() {
    for name in ["", "HEAD", "fetch", " GET", "GET ", "OPTIONS"] {
        match ProxyMethod::parse(name) {
            Err(MyError::InvalidMethod(given)) => assert_eq!(given, name),
            other => panic!("unexpected {:?}", other),
        }
    }
}

#[test]
fn names_in_upper_case_only() {
    assert_eq!(ProxyMethod::named("PATCH"), Some(ProxyMethod::Patch));
    assert_eq!(ProxyMethod::named("patch"), None);
    assert_eq!(ProxyMethod::named("GETS"), None);
}

#[test]
fn only_patch_takes_headers() {
    assert!(ProxyMethod::Patch.takes_headers());
    assert!(!ProxyMethod::Get.takes_headers());
    assert!(!ProxyMethod::Post.takes_headers());
    assert!(!ProxyMethod::Put.takes_headers());
    assert!(!ProxyMethod::Delete.takes_headers());
}

fn context(name: &str, cluster: &str) -> Context {
    Context {
        name: name.to_string(),
        context: ContextInfo {
            cluster: cluster.to_string(),
            user: "admin".to_string(),
            namespace: None,
        },
    }
}

fn config() -> KubernetesConfig {
    KubernetesConfig {
        api_version: "v1".to_string(),
        clusters: vec![Cluster {
            name: "east".to_string(),
            cluster: ClusterInfo {
                server: "https://east:6443".to_string(),
                certificate_authority_data: String::new(),
            },
        }],
        contexts: vec![
            context("dev", "west"),
            context("east-admin", "east"),
            context("east-viewer", "east"),
        ],
        current_context: "dev".to_string(),
        active_view_context: None,
    }
}

#[test]
fn first_context_of_a_cluster_is_found() {
    let config = config();
    assert_eq!(config.context_for_cluster("east"), Some(1));
    assert_eq!(config.context_for_cluster("west"), Some(0));
    assert_eq!(config.context_for_cluster("north"), None);
    assert_eq!(config.context_for_cluster(""), None);
    assert_eq!(config.clone().contexts[1].name, "east-admin");
}

#[test]
fn config_without_contexts_has_no_match() {
    let mut config = config();
    config.contexts.clear();
    assert_eq!(config.context_for_cluster("east"), None);
}

#[test]
fn cluster_summary_before_and_after_the_probe() {
    let mut cluster =
        session_mux::resource::Cluster::unknown("east".to_string(), "https://east:6443".to_string());
    assert_eq!(cluster.name, "east");
    assert_eq!(cluster.url, "https://east:6443");
    assert_eq!(cluster.version, "Unknown");
    assert_eq!(cluster.platform, "Unknown");
    assert!(!cluster.status);
    cluster.reached("v1.30.1".to_string(), "linux/amd64".to_string());
    assert_eq!(cluster.name, "east");
    assert_eq!(cluster.url, "https://east:6443");
    assert_eq!(cluster.version, "v1.30.1");
    assert_eq!(cluster.platform, "linux/amd64");
    assert!(cluster.status);
}

#[test]
fn phrases_are_found_anywhere() {
    assert!(contains_phrase("hello world", "hello"));
    assert!(contains_phrase("hello world", "world"));
    assert!(contains_phrase("hello world", "o w"));
    assert!(contains_phrase("hello world", ""));
    assert!(contains_phrase("", ""));
    assert!(contains_phrase("aab", "ab"));
    assert!(!contains_phrase("hello world", "worlds"));
    assert!(!contains_phrase("", "a"));
    assert!(!contains_phrase("abc", "abcd"));
    assert!(!contains_phrase("hello", "Hello"));
}

#[test]
fn characters_not_bytes() {
    assert_eq!(chars_of("a\u{e9}\u{20ac}"), vec!['a', '\u{e9}', '\u{20ac}']);
    assert_eq!(chars_of(""), Vec::<char>::new());
    assert!(find(&vec!['x', 'y', 'z'], &vec!['y', 'z']));
    assert!(!find(&vec!['x', 'y', 'z'], &vec!['z', 'y']));
}

#[test]
fn same_text_compares_characters() {
    assert!(same_text("", ""));
    assert!(same_text("main", "main"));
    assert!(!same_text("main", "Main"));
    assert!(!same_text("main", "main "));
}

#[test]
fn menu_entries_by_identifier() {
    assert_eq!(TrayCommand::named("quit"), Some(TrayCommand::Quit));
    assert_eq!(TrayCommand::named("show"), Some(TrayCommand::Show));
    assert_eq!(TrayCommand::named("hide"), Some(TrayCommand::Hide));
    assert_eq!(TrayCommand::named("edit_file"), Some(TrayCommand::EditFile));
    assert_eq!(TrayCommand::named("new_file"), Some(TrayCommand::NewFile));
    assert_eq!(TrayCommand::named("about"), Some(TrayCommand::About));
    assert_eq!(TrayCommand::named("Quit"), None);
    assert_eq!(TrayCommand::named(""), None);
    assert_eq!(TrayCommand::named("File"), None);
}

#[test]
fn windows_shown_on_click() {
    assert!(shows_on_click("main"));
    assert!(shows_on_click("main-login"));
    assert!(!shows_on_click("core"));
    assert!(!shows_on_click(""));
}
