//! Connection properties, the settings of a connect call, and the cache.

use hdfs3::cache::HdfsCache;
use hdfs3::connection::{create_hdfs_fs, is_params_nul_free, ConnectionProperties};
use hdfs3::err::HdfsErr;
use hdfs3::hdfs3::HdfsFs;
use hdfs3::native::{BuilderSetting, NativeCall, Step};

fn properties(host: &str, port: u16, user: Option<&str>, ticket: Option<&str>) -> ConnectionProperties {
    ConnectionProperties {
        namenode_host: host.to_string(),
        namenode_port: port,
        namenode_user: user.map(|u| u.to_string()),
        kerberos_ticket_cache_path: ticket.map(|t| t.to_string()),
    }
}

fn pair(key: &str, value: &str) -> (String, String) {
    (key.to_string(), value.to_string())
}

fn connection(step: Step<Result<HdfsFs, HdfsErr>>) -> HdfsFs {
    match step {
        Step::Done(Ok(fs)) => fs,
        other => panic!("no connection: {:?}", other),
    }
}

#[test]
fn properties_are_equal_field_by_field() {
    let a = properties("h", 1, Some("u"), Some("/t"));
    assert!(a == properties("h", 1, Some("u"), Some("/t")));
    assert!(a != properties("g", 1, Some("u"), Some("/t")));
    assert!(a != properties("h", 2, Some("u"), Some("/t")));
    assert!(a != properties("h", 1, Some("v"), Some("/t")));
    assert!(a != properties("h", 1, None, Some("/t")));
    assert!(a != properties("h", 1, Some("u"), Some("/s")));
    assert!(a != properties("h", 1, Some("u"), None));
    assert!(a != properties("h", 1, Some("/t"), Some("u")));
    assert!(properties("h", 1, None, None) == properties("h", 1, None, None));
    let copy = a.clone();
    assert!(copy == a);
    assert_eq!(copy.namenode_user, Some("u".to_string()));
}

#[test]
fn properties_with_a_nul_cannot_cross() {
    assert!(properties("h", 1, Some("u"), Some("/t")).is_nul_free());
    assert!(properties("", 0, None, None).is_nul_free());
    assert!(!properties("h\0", 1, None, None).is_nul_free());
    assert!(!properties("h", 1, Some("\0u"), None).is_nul_free());
    assert!(!properties("h", 1, None, Some("/t\0/x")).is_nul_free());
    assert!(is_params_nul_free(&vec![pair("a", "b"), pair("c", "")]));
    assert!(is_params_nul_free(&Vec::new()));
    assert!(!is_params_nul_free(&vec![pair("a", "b"), pair("c\0", "d")]));
    assert!(!is_params_nul_free(&vec![pair("a", "\0"), pair("c", "d")]));
}

#[test]
fn connect_settings_come_in_order() {
    let full = properties("nn1", 8020, Some("alice"), Some("/tmp/krb5cc"));
    let params = vec![
        pair("dfs.domain.socket.path", "/var/lib/hadoop-fs/dn_socket"),
        pair("dfs.client.read.shortcircuit", "true"),
    ];
    assert_eq!(
        create_hdfs_fs(&full, &params, None),
        Step::Call(NativeCall::Connect {
            settings: vec![
                BuilderSetting::ConfStr {
                    key: "dfs.domain.socket.path".to_string(),
                    value: "/var/lib/hadoop-fs/dn_socket".to_string(),
                },
                BuilderSetting::ConfStr {
                    key: "dfs.client.read.shortcircuit".to_string(),
                    value: "true".to_string(),
                },
                BuilderSetting::NameNode("nn1".to_string()),
                BuilderSetting::NameNodePort(8020),
                BuilderSetting::UserName("alice".to_string()),
                BuilderSetting::KerbTicketCachePath("/tmp/krb5cc".to_string()),
            ],
        })
    );
    let bare = properties("nn2", 9000, None, None);
    assert_eq!(
        create_hdfs_fs(&bare, &Vec::new(), None),
        Step::Call(NativeCall::Connect {
            settings: vec![
                BuilderSetting::NameNode("nn2".to_string()),
                BuilderSetting::NameNodePort(9000),
            ],
        })
    );
    let ticket_only = properties("nn3", 1, None, Some("/t"));
    assert_eq!(
        create_hdfs_fs(&ticket_only, &Vec::new(), None),
        Step::Call(NativeCall::Connect {
            settings: vec![
                BuilderSetting::NameNode("nn3".to_string()),
                BuilderSetting::NameNodePort(1),
                BuilderSetting::KerbTicketCachePath("/t".to_string()),
            ],
        })
    );
}

#[test]
fn connect_answers_are_a_handle_or_a_refusal() {
    let p = properties("nn1", 8020, None, None);
    assert_eq!(create_hdfs_fs(&p, &Vec::new(), Some(77)), Step::Done(Ok(77)));
    assert_eq!(create_hdfs_fs(&p, &Vec::new(), Some(u64::MAX)), Step::Done(Ok(u64::MAX)));
    assert_eq!(
        create_hdfs_fs(&p, &Vec::new(), Some(0)),
        Step::Done(Err(HdfsErr::CannotConnectToNameNode("nn1:8020".to_string())))
    );
    assert_eq!(
        create_hdfs_fs(&properties("10.0.0.1", 0, None, None), &Vec::new(), Some(0)),
        Step::Done(Err(HdfsErr::CannotConnectToNameNode("10.0.0.1:0".to_string())))
    );
    assert_eq!(
        create_hdfs_fs(&properties("h", 65535, None, None), &Vec::new(), Some(0)),
        Step::Done(Err(HdfsErr::CannotConnectToNameNode("h:65535".to_string())))
    );
}

#[test]
fn the_cache_starts_empty() {
    let cache = HdfsCache::new();
    assert_eq!(cache.len(), 0);
    assert!(cache.get(&properties("h", 1, None, None)).is_none());
}

#[test]
fn a_miss_asks_to_connect_and_changes_nothing() {
    let mut cache = HdfsCache::new();
    match HdfsFs::new(properties("h", 1, None, None), &mut cache, None) {
        Step::Call(call) => assert_eq!(
            call,
            NativeCall::Connect {
                settings: vec![
                    BuilderSetting::NameNode("h".to_string()),
                    BuilderSetting::NameNodePort(1),
                ],
            }
        ),
        other => panic!("no connect: {:?}", other),
    }
    assert_eq!(cache.len(), 0);
    let params = vec![pair("k", "v")];
    let step = HdfsFs::new_with_hdfs_params(properties("h", 1, None, None), params, &mut cache, None);
    match step {
        Step::Call(NativeCall::Connect { settings }) => {
            assert_eq!(settings.len(), 3);
            assert_eq!(
                settings[0],
                BuilderSetting::ConfStr { key: "k".to_string(), value: "v".to_string() }
            );
        }
        other => panic!("no connect: {:?}", other),
    }
    assert_eq!(cache.len(), 0);
}

#[test]
fn a_connection_is_cached_once_for_its_key() {
    let mut cache = HdfsCache::new();
    let first = connection(HdfsFs::new(properties("h", 1, None, None), &mut cache, Some(5)));
    assert_eq!(first.raw(), 5);
    assert_eq!(cache.len(), 1);
    // An equal key is served from the cache, whatever the native client offers.
    let second = connection(HdfsFs::new(properties("h", 1, None, None), &mut cache, Some(9)));
    assert_eq!(second.raw(), 5);
    let third = connection(HdfsFs::new(properties("h", 1, None, None), &mut cache, None));
    assert_eq!(third.raw(), 5);
    let fourth = connection(HdfsFs::new(properties("h", 1, None, None), &mut cache, Some(0)));
    assert_eq!(fourth.raw(), 5);
    assert_eq!(cache.len(), 1);
    assert_eq!(cache.get(&properties("h", 1, None, None)).map(|fs| fs.raw()), Some(5));
    assert!(*second.connection_properties() == properties("h", 1, None, None));
}

#[test]
fn distinct_keys_get_distinct_connections() {
    let mut cache = HdfsCache::new();
    let a = connection(HdfsFs::new(properties("h", 1, None, None), &mut cache, Some(5)));
    let b = connection(HdfsFs::new(properties("h", 2, None, None), &mut cache, Some(6)));
    let c = connection(HdfsFs::new(properties("h", 1, Some("u"), None), &mut cache, Some(7)));
    let d = connection(HdfsFs::new(properties("h", 1, None, Some("u")), &mut cache, Some(8)));
    assert_eq!((a.raw(), b.raw(), c.raw(), d.raw()), (5, 6, 7, 8));
    assert_eq!(cache.len(), 4);
    assert_eq!(cache.get(&properties("h", 2, None, None)).map(|fs| fs.raw()), Some(6));
    assert_eq!(cache.get(&properties("h", 1, Some("u"), None)).map(|fs| fs.raw()), Some(7));
    assert!(cache.get(&properties("h", 3, None, None)).is_none());
}

#[test]
fn a_refused_connection_is_not_cached() {
    let mut cache = HdfsCache::new();
    let step = HdfsFs::new(properties("h", 1, None, None), &mut cache, Some(0));
    match step {
        Step::Done(Err(err)) => assert_eq!(err, HdfsErr::CannotConnectToNameNode("h:1".to_string())),
        other => panic!("not refused: {:?}", other),
    }
    assert_eq!(cache.len(), 0);
    match HdfsFs::new(properties("h", 1, None, None), &mut cache, None) {
        Step::Call(NativeCall::Connect { .. }) => {}
        other => panic!("no retry: {:?}", other),
    }
    let fs = connection(HdfsFs::new(properties("h", 1, None, None), &mut cache, Some(3)));
    assert_eq!(fs.raw(), 3);
}

#[test]
fn get_or_insert_keeps_the_first_connection() {
    let mut cache = HdfsCache::new();
    let mut other = HdfsCache::new();
    let five = connection(HdfsFs::new(properties("h", 1, None, None), &mut other, Some(5)));
    let mut another = HdfsCache::new();
    let nine = connection(HdfsFs::new(properties("h", 1, None, None), &mut another, Some(9)));
    assert_eq!(cache.get_or_insert(five).raw(), 5);
    assert_eq!(cache.get_or_insert(nine).raw(), 5);
    assert_eq!(cache.len(), 1);
}
