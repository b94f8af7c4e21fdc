//! The properties that identify a connection, and how a connection is
//! established from them.

use vstd::prelude::*;
use vstd::std_specs::cmp::PartialEqSpecImpl;

use crate::err::{HdfsErr, HdfsErrView};
use crate::native::{
    settings_view, BuilderSetting, BuilderSettingView, NativeCall, NativeCallView, Step,
};
use crate::text::{address, address_text, nul_free};

verus! {

/// Encapsulates the properties of a connection to a name node. Two values
/// with the same fields name the same connection.
#[derive(Debug, Eq, Hash)]
pub struct ConnectionProperties {
    pub namenode_host: String,
    pub namenode_port: u16,
    pub namenode_user: Option<String>,
    pub kerberos_ticket_cache_path: Option<String>,
}

/// What identifies a connection: the fields of its properties as plain values.
pub struct ConnectionKey {
    pub host: Seq<char>,
    pub port: u16,
    pub user: Option<Seq<char>>,
    pub ticket_cache_path: Option<Seq<char>>,
}

impl ConnectionKey {
    /// Whether every text of the key can cross into the native layer whole.
    pub open spec fn nul_free(self) -> bool {
        &&& nul_free(self.host)
        &&& self.user matches Some(user) ==> nul_free(user)
        &&& self.ticket_cache_path matches Some(path) ==> nul_free(path)
    }
}

/// An optional text as a plain value.
pub open spec fn text_view(text: Option<String>) -> Option<Seq<char>> {
    match text {
        Some(text) => Some(text@),
        None => None,
    }
}

impl View for ConnectionProperties {
    type V = ConnectionKey;

    open spec fn view(&self) -> ConnectionKey {
        ConnectionKey {
            host: self.namenode_host@,
            port: self.namenode_port,
            user: text_view(self.namenode_user),
            ticket_cache_path: text_view(self.kerberos_ticket_cache_path),
        }
    }
}

fn same_text(a: &Option<String>, b: &Option<String>) -> (same: bool)
    ensures
        same == (text_view(*a) == text_view(*b)),
{
    match (a, b) {
        (None, None) => true,
        (Some(a), Some(b)) => *a == *b,
        _ => false,
    }
}

fn clone_text(text: &Option<String>) -> (copy: Option<String>)
    ensures
        copy == *text,
{
    match text {
        Some(text) => Some(text.clone()),
        None => None,
    }
}

impl PartialEq for ConnectionProperties {
    fn eq(&self, other: &Self) -> (equal: bool) {
        self.namenode_host == other.namenode_host && self.namenode_port == other.namenode_port
            && same_text(&self.namenode_user, &other.namenode_user) && same_text(
            &self.kerberos_ticket_cache_path,
            &other.kerberos_ticket_cache_path,
        )
    }
}

impl PartialEqSpecImpl for ConnectionProperties {
    open spec fn obeys_eq_spec() -> bool {
        true
    }

    open spec fn eq_spec(&self, other: &Self) -> bool {
        self@ == other@
    }
}

impl Clone for ConnectionProperties {
    fn clone(&self) -> (copy: Self)
        ensures
            copy == *self,
    {
        ConnectionProperties {
            namenode_host: self.namenode_host.clone(),
            namenode_port: self.namenode_port,
            namenode_user: clone_text(&self.namenode_user),
            kerberos_ticket_cache_path: clone_text(&self.kerberos_ticket_cache_path),
        }
    }
}

impl ConnectionProperties {
    /// Tests whether every text of the properties can cross into the native
    /// layer whole.
    pub fn is_nul_free(&self) -> (free: bool)
        ensures
            free == self@.nul_free(),
    {
        crate::text::is_nul_free(self.namenode_host.as_str()) && (match &self.namenode_user {
            Some(user) => crate::text::is_nul_free(user.as_str()),
            None => true,
        }) && (match &self.kerberos_ticket_cache_path {
            Some(path) => crate::text::is_nul_free(path.as_str()),
            None => true,
        })
    }
}

/// Configuration pairs as plain values.
pub open spec fn params_view(params: Seq<(String, String)>) -> Seq<(Seq<char>, Seq<char>)> {
    params.map_values(|pair: (String, String)| (pair.0@, pair.1@))
}

/// Whether every key and value of the configuration pairs can cross into the
/// native layer whole.
pub open spec fn params_nul_free(params: Seq<(Seq<char>, Seq<char>)>) -> bool {
    forall|i: int|
        0 <= i < params.len() ==> nul_free((#[trigger] params[i]).0) && nul_free(params[i].1)
}

/// Tests whether every key and value of the configuration pairs can cross into
/// the native layer whole.
pub fn is_params_nul_free(params: &Vec<(String, String)>) -> (free: bool)
    ensures
        free == params_nul_free(params_view(params@)),
{
    let mut i: usize = 0;
    while i < params.len()
        invariant
            i <= params.len(),
            params_nul_free(params_view(params@).subrange(0, i as int)),
        decreases params.len() - i,
    {
        let key_free = crate::text::is_nul_free(params[i].0.as_str());
        let value_free = crate::text::is_nul_free(params[i].1.as_str());
        if !key_free || !value_free {
            assert(params_view(params@)[i as int] == (params@[i as int].0@, params@[i as int].1@));
            return false;
        }
        assert forall|j: int| 0 <= j < i + 1 implies nul_free(
            (#[trigger] params_view(params@).subrange(0, i + 1)[j]).0,
        ) && nul_free(params_view(params@).subrange(0, i + 1)[j].1) by {
            if j < i {
                assert(params_view(params@).subrange(0, i as int)[j] == params_view(
                    params@,
                ).subrange(0, i + 1)[j]);
            }
        }
        i += 1;
    }
    assert(params_view(params@).subrange(0, i as int) =~= params_view(params@));
    true
}

/// The configuration pairs as builder settings, in their order.
pub open spec fn conf_settings(params: Seq<(Seq<char>, Seq<char>)>) -> Seq<BuilderSettingView> {
    params.map_values(
        |pair: (Seq<char>, Seq<char>)| (BuilderSettingView::ConfStr { key: pair.0, value: pair.1 }),
    )
}

/// The settings that establish a connection, in the order in which they are
/// made: each configuration pair, the host, the port, then the user and the
/// ticket cache path where there is one.
pub open spec fn builder_settings(
    key: ConnectionKey,
    params: Seq<(Seq<char>, Seq<char>)>,
) -> Seq<BuilderSettingView> {
    conf_settings(params) + seq![
        BuilderSettingView::NameNode(key.host),
        BuilderSettingView::NameNodePort(key.port),
    ] + (match key.user {
        Some(user) => seq![BuilderSettingView::UserName(user)],
        None => seq![],
    }) + (match key.ticket_cache_path {
        Some(path) => seq![BuilderSettingView::KerbTicketCachePath(path)],
        None => seq![],
    })
}

/// Settings taken from NUL-free properties and pairs are NUL-free.
pub proof fn lemma_builder_settings_nul_free(
    key: ConnectionKey,
    params: Seq<(Seq<char>, Seq<char>)>,
)
    requires
        key.nul_free(),
        params_nul_free(params),
    ensures
        (NativeCallView::Connect { settings: builder_settings(key, params) }).nul_free(),
{
    let settings = builder_settings(key, params);
    assert forall|i: int| 0 <= i < settings.len() implies (#[trigger] settings[i]).nul_free() by {
        if i < params.len() {
            assert(settings[i] == BuilderSettingView::ConfStr {
                key: params[i].0,
                value: params[i].1,
            });
        }
    }
}

fn settings_of(
    connection_properties: &ConnectionProperties,
    hdfs_params: &Vec<(String, String)>,
) -> (settings: Vec<BuilderSetting>)
    ensures
        settings_view(settings@) == builder_settings(
            connection_properties@,
            params_view(hdfs_params@),
        ),
{
    let ghost params = params_view(hdfs_params@);
    let mut settings: Vec<BuilderSetting> = Vec::new();
    let mut i: usize = 0;
    assert(settings_view(settings@) =~= conf_settings(params.subrange(0, 0)));
    while i < hdfs_params.len()
        invariant
            i <= hdfs_params.len(),
            params == params_view(hdfs_params@),
            settings@.len() == i,
            settings_view(settings@) == conf_settings(params.subrange(0, i as int)),
        decreases hdfs_params.len() - i,
    {
        let ghost before = settings@;
        let key = hdfs_params[i].0.clone();
        let value = hdfs_params[i].1.clone();
        settings.push(BuilderSetting::ConfStr { key, value });
        proof {
            let after = settings_view(settings@);
            let wanted = conf_settings(params.subrange(0, i + 1));
            assert(params[i as int] == (hdfs_params@[i as int].0@, hdfs_params@[i as int].1@));
            assert forall|j: int| 0 <= j < after.len() implies after[j] == wanted[j] by {
                assert(after[j] == settings@[j]@);
                assert(wanted[j] == BuilderSettingView::ConfStr {
                    key: params[j].0,
                    value: params[j].1,
                });
                if j < i {
                    assert(settings@[j] == before[j]);
                    assert(settings_view(before)[j] == before[j]@);
                    assert(conf_settings(params.subrange(0, i as int))[j]
                        == BuilderSettingView::ConfStr { key: params[j].0, value: params[j].1 });
                }
            }
            assert(after =~= wanted);
        }
        i += 1;
    }
    assert(params.subrange(0, i as int) =~= params);
    let ghost confs = settings_view(settings@);
    settings.push(BuilderSetting::NameNode(connection_properties.namenode_host.clone()));
    settings.push(BuilderSetting::NameNodePort(connection_properties.namenode_port));
    let ghost named = settings_view(settings@);
    assert(named =~= confs + seq![
        BuilderSettingView::NameNode(connection_properties@.host),
        BuilderSettingView::NameNodePort(connection_properties@.port),
    ]);
    if let Some(user) = &connection_properties.namenode_user {
        settings.push(BuilderSetting::UserName(user.clone()));
    }
    let ghost with_user = settings_view(settings@);
    assert(with_user =~= named + (match connection_properties@.user {
        Some(user) => seq![BuilderSettingView::UserName(user)],
        None => seq![],
    }));
    if let Some(path) = &connection_properties.kerberos_ticket_cache_path {
        settings.push(BuilderSetting::KerbTicketCachePath(path.clone()));
    }
    let ghost ticket_cache_path = connection_properties@.ticket_cache_path;
    assert(settings_view(settings@) =~= with_user + (match ticket_cache_path {
        Some(path) => seq![BuilderSettingView::KerbTicketCachePath(path)],
        None => seq![],
    }));
    settings
}

/// Establishes a native connection to the name node of `connection_properties`.
///
/// Without an answer it asks for the connect call, whose settings are the
/// configuration pairs in the order given, the host and the port, then the
/// user and the ticket cache path where the properties hold one. With the
/// native answer in `connected` it ends: with the handle, or, where the
/// native client returned the null handle, with the name node's address in
/// `CannotConnectToNameNode`.
pub fn create_hdfs_fs(
    connection_properties: &ConnectionProperties,
    hdfs_params: &Vec<(String, String)>,
    connected: Option<u64>,
) -> (step: Step<Result<u64, HdfsErr>>)
    requires
        connection_properties@.nul_free(),
        params_nul_free(params_view(hdfs_params@)),
    ensures
        connected is None ==> step.asks(
            NativeCallView::Connect {
                settings: builder_settings(connection_properties@, params_view(hdfs_params@)),
            },
        ),
        connected == Some(0u64) ==> step.fails(
            HdfsErrView::CannotConnectToNameNode(
                address(connection_properties@.host, connection_properties@.port),
            ),
        ),
        connected matches Some(raw) ==> (raw != 0 ==> step.ends(Ok(raw))),
        step matches Step::Call(call) ==> call@.nul_free(),
{
    match connected {
        None => {
            proof {
                lemma_builder_settings_nul_free(
                    connection_properties@,
                    params_view(hdfs_params@),
                );
            }
            Step::Call(
                NativeCall::Connect { settings: settings_of(connection_properties, hdfs_params) },
            )
        },
        Some(raw) => {
            if raw == 0 {
                Step::Done(
                    Err(
                        HdfsErr::CannotConnectToNameNode(
                            address_text(
                                connection_properties.namenode_host.as_str(),
                                connection_properties.namenode_port,
                            ),
                        ),
                    ),
                )
            } else {
                Step::Done(Ok(raw))
            }
        },
    }
}

} // verus!
