//! The configuration store: named server profiles, the current selection and
//! the snapshot of the last session.

use vstd::prelude::*;
use vstd::string::StringExecFns;
use crate::reconcile::{apply_change, changed, StateChange};
use crate::text::{append_hex, hex_text};

verus! {

/// Snapshot of the last session, used to resume after a restart.
#[derive(Debug, Clone, Copy, PartialEq, Eq, Structural)]
pub struct LastState {
    pub was_running: bool,
    pub system_proxy_enabled: bool,
    pub auto_start_checked: bool,
    /// 0 = detect automatically, 1 = embedded, 2 = external worker.
    pub preferred_mode: i32,
}

impl Default for LastState {
    fn default() -> (state: Self)
        ensures
            state == (LastState {
                was_running: false,
                system_proxy_enabled: false,
                auto_start_checked: false,
                preferred_mode: 0,
            }),
    {
        LastState {
            was_running: false,
            system_proxy_enabled: false,
            auto_start_checked: false,
            preferred_mode: 0,
        }
    }
}

/// One named server profile.
#[derive(Debug, PartialEq, Eq)]
pub struct Server {
    pub id: String,
    pub name: String,
    pub server: String,
    pub listen: String,
    pub token: String,
    pub ip: String,
    pub dns: String,
    pub ech: String,
    pub routing_mode: String,
}

/// What a `Server` holds, as text.
pub struct ServerView {
    pub id: Seq<char>,
    pub name: Seq<char>,
    pub server: Seq<char>,
    pub listen: Seq<char>,
    pub token: Seq<char>,
    pub ip: Seq<char>,
    pub dns: Seq<char>,
    pub ech: Seq<char>,
    pub routing_mode: Seq<char>,
}

impl View for Server {
    type V = ServerView;

    open spec fn view(&self) -> ServerView {
        ServerView {
            id: self.id@,
            name: self.name@,
            server: self.server@,
            listen: self.listen@,
            token: self.token@,
            ip: self.ip@,
            dns: self.dns@,
            ech: self.ech@,
            routing_mode: self.routing_mode@,
        }
    }
}

impl DeepView for Server {
    type V = ServerView;

    open spec fn deep_view(&self) -> ServerView {
        self@
    }
}

impl Clone for Server {
    fn clone(&self) -> (copy: Self)
        ensures
            copy == *self,
    {
        Server {
            id: self.id.clone(),
            name: self.name.clone(),
            server: self.server.clone(),
            listen: self.listen.clone(),
            token: self.token.clone(),
            ip: self.ip.clone(),
            dns: self.dns.clone(),
            ech: self.ech.clone(),
            routing_mode: self.routing_mode.clone(),
        }
    }
}

/// The settings that determine the worker's argument vector.
#[derive(Debug, PartialEq, Eq)]
pub struct ProxyConfig {
    pub listen_addr: String,
    pub server_addr: String,
    pub server_ip: String,
    pub token: String,
    pub dns_server: String,
    pub ech_domain: String,
    pub routing_mode: String,
}

/// What a `ProxyConfig` holds, as text.
pub struct ProxyConfigView {
    pub listen_addr: Seq<char>,
    pub server_addr: Seq<char>,
    pub server_ip: Seq<char>,
    pub token: Seq<char>,
    pub dns_server: Seq<char>,
    pub ech_domain: Seq<char>,
    pub routing_mode: Seq<char>,
}

impl View for ProxyConfig {
    type V = ProxyConfigView;

    open spec fn view(&self) -> ProxyConfigView {
        ProxyConfigView {
            listen_addr: self.listen_addr@,
            server_addr: self.server_addr@,
            server_ip: self.server_ip@,
            token: self.token@,
            dns_server: self.dns_server@,
            ech_domain: self.ech_domain@,
            routing_mode: self.routing_mode@,
        }
    }
}

impl Clone for ProxyConfig {
    fn clone(&self) -> (copy: Self)
        ensures
            copy == *self,
    {
        ProxyConfig {
            listen_addr: self.listen_addr.clone(),
            server_addr: self.server_addr.clone(),
            server_ip: self.server_ip.clone(),
            token: self.token.clone(),
            dns_server: self.dns_server.clone(),
            ech_domain: self.ech_domain.clone(),
            routing_mode: self.routing_mode.clone(),
        }
    }
}

/// The settings used when no server is configured.
pub open spec fn default_proxy_config() -> ProxyConfigView {
    ProxyConfigView {
        listen_addr: "127.0.0.1:30000"@,
        server_addr: "example.workers.dev:443"@,
        server_ip: Seq::empty(),
        token: Seq::empty(),
        dns_server: "dns.alidns.com/dns-query"@,
        ech_domain: "cloudflare-ech.com"@,
        routing_mode: "global"@,
    }
}

impl Default for ProxyConfig {
    fn default() -> (config: Self)
        ensures
            config@ == default_proxy_config(),
    {
        ProxyConfig {
            listen_addr: "127.0.0.1:30000".to_owned(),
            server_addr: "example.workers.dev:443".to_owned(),
            server_ip: String::new(),
            token: String::new(),
            dns_server: "dns.alidns.com/dns-query".to_owned(),
            ech_domain: "cloudflare-ech.com".to_owned(),
            routing_mode: "global".to_owned(),
        }
    }
}

/// Everything that is persisted: the servers, the current selection and
/// the last state.
#[derive(Debug, PartialEq, Eq)]
pub struct FileModel {
    pub servers: Vec<Server>,
    pub current_server_id: String,
    pub last_state: LastState,
}

/// What a `FileModel` holds, as text.
pub struct FileModelView {
    pub servers: Seq<ServerView>,
    pub current_server_id: Seq<char>,
    pub last_state: LastState,
}

impl View for FileModel {
    type V = FileModelView;

    open spec fn view(&self) -> FileModelView {
        FileModelView {
            servers: self.servers.deep_view(),
            current_server_id: self.current_server_id@,
            last_state: self.last_state,
        }
    }
}

/// The model of a fresh installation: no server, nothing selected.
pub open spec fn empty_model() -> FileModelView {
    FileModelView {
        servers: Seq::empty(),
        current_server_id: Seq::empty(),
        last_state: LastState {
            was_running: false,
            system_proxy_enabled: false,
            auto_start_checked: false,
            preferred_mode: 0,
        },
    }
}

impl Clone for FileModel {
    fn clone(&self) -> (copy: Self)
        ensures
            copy@ == self@,
    {
        let servers = self.servers.clone();
        assert(servers@ =~= self.servers@);
        FileModel {
            servers,
            current_server_id: self.current_server_id.clone(),
            last_state: self.last_state,
        }
    }
}

impl Default for FileModel {
    fn default() -> (model: Self)
        ensures
            model@ == empty_model(),
    {
        let servers: Vec<Server> = Vec::new();
        assert(servers.deep_view() =~= Seq::<ServerView>::empty());
        FileModel {
            servers,
            current_server_id: String::new(),
            last_state: LastState::default(),
        }
    }
}

/// `at` is the first position whose server has the id.
pub open spec fn first_with_id(servers: Seq<ServerView>, id: Seq<char>, at: int) -> bool {
    &&& 0 <= at < servers.len()
    &&& servers[at].id == id
    &&& forall|i: int| 0 <= i < at ==> servers[i].id != id
}

/// Some server has the id.
pub open spec fn has_id(servers: Seq<ServerView>, id: Seq<char>) -> bool {
    exists|at: int| 0 <= at < servers.len() && servers[at].id == id
}

/// The first position whose server has the id, for an id that some server
/// has.
pub open spec fn index_of_id(servers: Seq<ServerView>, id: Seq<char>) -> int {
    choose|at: int| first_with_id(servers, id, at)
}

/// There is one first position at most.
pub proof fn lemma_first_with_id_is_unique(servers: Seq<ServerView>, id: Seq<char>, at: int)
    requires
        first_with_id(servers, id, at),
    ensures
        has_id(servers, id),
        index_of_id(servers, id) == at,
{
    let chosen = index_of_id(servers, id);
    assert(first_with_id(servers, id, chosen));
    if chosen < at {
        assert(servers[chosen].id != id);
    } else if at < chosen {
        assert(servers[at].id != id);
    }
}

/// An id that some server has, has a first position.
pub proof fn lemma_has_id_has_first(servers: Seq<ServerView>, id: Seq<char>)
    requires
        has_id(servers, id),
    ensures
        first_with_id(servers, id, index_of_id(servers, id)),
    decreases servers.len(),
{
    let some = choose|at: int| 0 <= at < servers.len() && servers[at].id == id;
    lemma_first_up_to(servers, id, some);
}

proof fn lemma_first_up_to(servers: Seq<ServerView>, id: Seq<char>, bound: int)
    requires
        0 <= bound < servers.len(),
        servers[bound].id == id,
    ensures
        exists|at: int| first_with_id(servers, id, at),
    decreases bound,
{
    if exists|i: int| 0 <= i < bound && servers[i].id == id {
        let earlier = choose|i: int| 0 <= i < bound && servers[i].id == id;
        lemma_first_up_to(servers, id, earlier);
    } else {
        assert(first_with_id(servers, id, bound));
    }
}

/// The position of the current server: the first one with the selected
/// id, or the first one of all where nothing is selected or the selection
/// names no server. `None` where there is no server.
pub open spec fn selected_index(model: FileModelView) -> Option<int> {
    if model.servers.len() == 0 {
        None
    } else if model.current_server_id.len() > 0 && has_id(
        model.servers,
        model.current_server_id,
    ) {
        Some(index_of_id(model.servers, model.current_server_id))
    } else {
        Some(0)
    }
}

/// The current server.
pub open spec fn current_server(model: FileModelView) -> Option<ServerView> {
    match selected_index(model) {
        Some(at) => Some(model.servers[at]),
        None => None,
    }
}

/// The settings that a server stands for.
pub open spec fn settings_of(server: ServerView) -> ProxyConfigView {
    ProxyConfigView {
        listen_addr: server.listen,
        server_addr: server.server,
        server_ip: server.ip,
        token: server.token,
        dns_server: server.dns,
        ech_domain: server.ech,
        routing_mode: server.routing_mode,
    }
}

/// A server with its settings replaced; id and name stay.
pub open spec fn with_settings(server: ServerView, config: ProxyConfigView) -> ServerView {
    ServerView {
        id: server.id,
        name: server.name,
        server: config.server_addr,
        listen: config.listen_addr,
        token: config.token,
        ip: config.server_ip,
        dns: config.dns_server,
        ech: config.ech_domain,
        routing_mode: config.routing_mode,
    }
}

/// The settings of the current server, or the defaults without one.
pub open spec fn proxy_config_of(model: FileModelView) -> ProxyConfigView {
    match current_server(model) {
        Some(server) => settings_of(server),
        None => default_proxy_config(),
    }
}

/// The servers after one was put in: it replaces the first server with
/// its id, or comes last where no server has its id.
pub open spec fn upserted(servers: Seq<ServerView>, server: ServerView) -> Seq<ServerView> {
    if has_id(servers, server.id) {
        servers.update(index_of_id(servers, server.id), server)
    } else {
        servers.push(server)
    }
}

/// The model after the settings of the current server were replaced;
/// its id and name stay.
pub open spec fn with_proxy_config(model: FileModelView, config: ProxyConfigView) -> FileModelView {
    match selected_index(model) {
        Some(at) => FileModelView {
            servers: model.servers.update(at, with_settings(model.servers[at], config)),
            ..model
        },
        None => model,
    }
}

/// The model after settings were stored: they replace those of the
/// current server. A store without servers is first given the default
/// server under the fresh id, which then holds them.
pub open spec fn stored_proxy_config(
    model: FileModelView,
    config: ProxyConfigView,
    fresh_id: Seq<char>,
) -> FileModelView {
    with_proxy_config(with_default_server(model, fresh_id), config)
}

/// The model after every server with the id was removed. Where the id
/// was the selected one, the first server left is selected, or none.
pub open spec fn deleted(model: FileModelView, id: Seq<char>) -> FileModelView {
    let kept = model.servers.filter(|server: ServerView| server.id != id);
    FileModelView {
        servers: kept,
        current_server_id: if model.current_server_id == id {
            if kept.len() > 0 {
                kept[0].id
            } else {
                Seq::empty()
            }
        } else {
            model.current_server_id
        },
        ..model
    }
}

/// The test that a server passes when it is not the one to delete.
pub open spec fn has_other_id(id: Seq<char>) -> spec_fn(ServerView) -> bool {
    |server: ServerView| server.id != id
}

/// The server that a store without servers is given.
pub open spec fn default_server(id: Seq<char>) -> ServerView {
    ServerView {
        id,
        name: "默认服务器"@,
        server: "example.workers.dev:443"@,
        listen: "127.0.0.1:30000"@,
        token: Seq::empty(),
        ip: Seq::empty(),
        dns: "dns.alidns.com/dns-query"@,
        ech: "cloudflare-ech.com"@,
        routing_mode: "global"@,
    }
}

/// The model after a store without servers was given the default server
/// under the id, and that server selected. A store with a server stays as
/// it is.
pub open spec fn with_default_server(model: FileModelView, id: Seq<char>) -> FileModelView {
    if model.servers.len() == 0 {
        FileModelView { servers: seq![default_server(id)], current_server_id: id, ..model }
    } else {
        model
    }
}

/// The id that is made of a number: `server_` and the number in
/// lower-case hexadecimal.
pub open spec fn server_id_of(number: nat) -> Seq<char> {
    "server_"@ + hex_text(number)
}

/// The id that is made of a number.
pub fn server_id_for(number: u32) -> (id: String)
    ensures
        id@ == server_id_of(number as nat),
{
    let mut id = String::from_str("server_");
    append_hex(&mut id, number);
    id
}

/// The generator of `rand` that belongs to the running thread.
#[verifier::external_type_specification]
#[verifier::external_body]
pub struct ExThreadRng(rand::rngs::ThreadRng);

/// Calls `rand::thread_rng`, which hands out the thread's generator.
/// Nothing is claimed of it. It gives up, as `rand` says, only where the
/// system has no randomness to seed it with.
#[verifier::external_body]
fn thread_generator() -> (generator: rand::rngs::ThreadRng) {
    rand::thread_rng()
}

/// Calls `rand::Rng::gen` for a `u32`. Nothing is claimed of the number:
/// it differs from call to call.
#[verifier::external_body]
fn next_number(generator: &mut rand::rngs::ThreadRng) -> (number: u32) {
    rand::Rng::gen::<u32>(generator)
}

/// A fresh server id: `server_` and a random number in hexadecimal.
///
/// Drawing the number panics where the operating system has no
/// randomness to give.
pub fn generate_server_id() -> (id: String)
    ensures
        exists|number: u32| id@ == server_id_of(number as nat),
{
    let mut generator = thread_generator();
    let number = next_number(&mut generator);
    server_id_for(number)
}

/// The position of the first server with the id, if some server has it.
fn find_by_id(servers: &Vec<Server>, id: &String) -> (found: Option<usize>)
    ensures
        found is Some <==> has_id(servers.deep_view(), id@),
        found matches Some(at) ==> first_with_id(servers.deep_view(), id@, at as int)
            && index_of_id(servers.deep_view(), id@) == at,
{
    let mut at: usize = 0;
    while at < servers.len()
        invariant
            at <= servers.len(),
            forall|i: int| 0 <= i < at ==> servers.deep_view()[i].id != id@,
        decreases servers.len() - at,
    {
        if servers[at].id == *id {
            proof {
                lemma_first_with_id_is_unique(servers.deep_view(), id@, at as int);
            }
            return Some(at);
        }
        at += 1;
    }
    None
}

/// The configuration store, as it is held in memory.
#[derive(Debug)]
pub struct Config {
    model: FileModel,
}

impl View for Config {
    type V = FileModelView;

    closed spec fn view(&self) -> FileModelView {
        self.model@
    }
}

impl Default for Config {
    fn default() -> (config: Self)
        ensures
            config@ == empty_model(),
    {
        Config { model: FileModel::default() }
    }
}

/// The name of the directory, below the user's configuration directory,
/// in which the store is kept.
pub fn config_dir_name() -> (name: String)
    ensures
        name@ == "ECHWorkersClient"@,
{
    String::from_str("ECHWorkersClient")
}

/// The name of the file in which the store is kept.
pub fn config_file_name() -> (name: String)
    ensures
        name@ == "config.json"@,
{
    String::from_str("config.json")
}

impl Config {
    /// The store for what was found on disk: the stored model, or the
    /// model of a fresh installation where nothing was stored, each with
    /// the default server added if it holds none. The flag says whether
    /// the store has to be saved at once, which is so where nothing was
    /// stored.
    ///
    /// Drawing the id of the default server panics where the operating
    /// system has no randomness to give.
    pub fn open(stored: Option<FileModel>) -> (opened: (Self, bool))
        ensures
            opened.1 == (stored is None),
            opened.0@.servers.len() > 0,
            match stored {
                Some(model) => model@.servers.len() > 0 ==> opened.0@ == model@,
                None => true,
            },
            exists|number: u32|
                opened.0@ == with_default_server(
                    match stored {
                        Some(model) => model@,
                        None => empty_model(),
                    },
                    server_id_of(number as nat),
                ),
    {
        let fresh = stored.is_none();
        let mut config = match stored {
            Some(model) => Config::from_model(model),
            None => Config::default(),
        };
        let ghost before = config@;
        config.ensure_default_server();
        proof {
            if before.servers.len() > 0 {
                assert(config@ == with_default_server(before, server_id_of(0u32 as nat)));
            }
        }
        (config, fresh)
    }

    /// A store that holds the given model.
    pub fn from_model(model: FileModel) -> (config: Self)
        ensures
            config@ == model@,
    {
        Config { model }
    }

    /// The model to persist.
    pub fn model(&self) -> (model: &FileModel)
        ensures
            model@ == self@,
    {
        &self.model
    }

    fn selected(&self) -> (at: Option<usize>)
        ensures
            match at {
                Some(at) => selected_index(self@) == Some(at as int) && at < self@.servers.len(),
                None => selected_index(self@) is None,
            },
    {
        if self.model.servers.len() == 0 {
            return None;
        }
        if !self.model.current_server_id.as_str().is_empty() {
            match find_by_id(&self.model.servers, &self.model.current_server_id) {
                Some(at) => {
                    return Some(at);
                },
                None => {},
            }
        }
        Some(0)
    }

    /// The settings of the current server, or the defaults where there is
    /// no server.
    pub fn get_proxy_config(&self) -> (config: ProxyConfig)
        ensures
            config@ == proxy_config_of(self@),
    {
        match self.selected() {
            Some(at) => {
                let server = &self.model.servers[at];
                ProxyConfig {
                    listen_addr: server.listen.clone(),
                    server_addr: server.server.clone(),
                    server_ip: server.ip.clone(),
                    token: server.token.clone(),
                    dns_server: server.dns.clone(),
                    ech_domain: server.ech.clone(),
                    routing_mode: server.routing_mode.clone(),
                }
            },
            None => ProxyConfig::default(),
        }
    }

    fn replace_current_settings(&mut self, config: ProxyConfig)
        ensures
            final(self)@ == with_proxy_config(old(self)@, config@),
    {
        match self.selected() {
            Some(at) => {
                let server = Server {
                    id: self.model.servers[at].id.clone(),
                    name: self.model.servers[at].name.clone(),
                    server: config.server_addr,
                    listen: config.listen_addr,
                    token: config.token,
                    ip: config.server_ip,
                    dns: config.dns_server,
                    ech: config.ech_domain,
                    routing_mode: config.routing_mode,
                };
                self.model.servers.set(at, server);
                assert(self.model.servers.deep_view() =~= old(self)@.servers.update(
                    at as int,
                    with_settings(old(self)@.servers[at as int], config@),
                ));
            },
            None => {},
        }
    }

    /// Stores settings: they replace those of the current server, whose
    /// id and name stay. A store without servers is first given the
    /// default server under `fresh_id` and that server selected, so that
    /// there is always a server to hold what was set.
    pub fn set_proxy_config_with(&mut self, config: ProxyConfig, fresh_id: String)
        ensures
            final(self)@ == stored_proxy_config(old(self)@, config@, fresh_id@),
            proxy_config_of(final(self)@) == config@,
    {
        proof {
            lemma_proxy_config_round_trip(self@, config@, fresh_id@);
        }
        self.ensure_default_server_with(fresh_id);
        self.replace_current_settings(config);
    }

    /// Stores settings, so that `get_proxy_config` gives them back: they
    /// replace those of the current server, whose id and name stay. A
    /// store without servers is first given the default server under a
    /// fresh id.
    ///
    /// Drawing the fresh id panics where the operating system has no
    /// randomness to give.
    pub fn set_proxy_config(&mut self, config: ProxyConfig)
        ensures
            proxy_config_of(final(self)@) == config@,
            old(self)@.servers.len() > 0 ==> final(self)@ == with_proxy_config(
                old(self)@,
                config@,
            ),
            exists|number: u32|
                final(self)@ == stored_proxy_config(
                    old(self)@,
                    config@,
                    server_id_of(number as nat),
                ),
    {
        if self.model.servers.len() == 0 {
            let id = generate_server_id();
            self.set_proxy_config_with(config, id);
        } else {
            proof {
                lemma_proxy_config_round_trip(self@, config@, server_id_of(0u32 as nat));
            }
            self.replace_current_settings(config);
            assert(self@ == stored_proxy_config(old(self)@, config@, server_id_of(0u32 as nat)));
        }
    }

    /// All servers, in their stored order.
    pub fn get_servers(&self) -> (servers: Vec<Server>)
        ensures
            servers.deep_view() == self@.servers,
    {
        let servers = self.model.servers.clone();
        assert(servers@ =~= self.model.servers@);
        servers
    }

    /// The current server: the first one with the selected id, or the
    /// first one of all where the selection names none.
    pub fn get_current_server(&self) -> (server: Option<Server>)
        ensures
            server.deep_view() == current_server(self@),
    {
        match self.selected() {
            Some(at) => Some(self.model.servers[at].clone()),
            None => None,
        }
    }

    /// Selects a server by its id. The id is not looked up.
    pub fn set_current_server(&mut self, id: String)
        ensures
            final(self)@ == (FileModelView { current_server_id: id@, ..old(self)@ }),
    {
        self.model.current_server_id = id;
    }

    /// Puts a server in: it replaces the first server with its id, or
    /// comes last where no server has its id.
    pub fn upsert_server(&mut self, server: Server)
        ensures
            final(self)@ == (FileModelView {
                servers: upserted(old(self)@.servers, server@),
                ..old(self)@
            }),
            has_id(final(self)@.servers, server@.id),
    {
        match find_by_id(&self.model.servers, &server.id) {
            Some(at) => {
                self.model.servers.set(at, server);
                assert(self.model.servers.deep_view() =~= old(self)@.servers.update(
                    at as int,
                    server@,
                ));
                assert(self.model.servers.deep_view()[at as int].id == server@.id);
            },
            None => {
                self.model.servers.push(server);
                assert(self.model.servers.deep_view() =~= old(self)@.servers.push(server@));
                assert(self.model.servers.deep_view()[old(self)@.servers.len() as int].id
                    == server@.id);
            },
        }
    }

    /// Removes every server with the id. Where the id was the selected
    /// one, the first server left is selected, or none.
    pub fn delete_server(&mut self, id: &str)
        ensures
            final(self)@ == deleted(old(self)@, id@),
            !has_id(final(self)@.servers, id@),
    {
        let id = id.to_owned();
        let ghost before = self@.servers;
        let mut kept: Vec<Server> = Vec::new();
        let mut at: usize = 0;
        assert(before.take(0) =~= Seq::<ServerView>::empty());
        proof {
            reveal(Seq::filter);
        }
        while at < self.model.servers.len()
            invariant
                at <= self.model.servers.len(),
                self.model.servers.deep_view() == before,
                kept.deep_view() == before.take(at as int).filter(has_other_id(id@)),
                forall|i: int| 0 <= i < kept.len() ==> kept.deep_view()[i].id != id@,
            decreases self.model.servers.len() - at,
        {
            proof {
                reveal(Seq::filter);
                assert(before.take(at + 1).drop_last() =~= before.take(at as int));
                assert(before.take(at + 1).last() == before[at as int]);
            }
            let ghost kept_before = kept.deep_view();
            if self.model.servers[at].id != id {
                kept.push(self.model.servers[at].clone());
                assert(kept.deep_view() =~= kept_before.push(before[at as int]));
            }
            at += 1;
        }
        assert(before.take(at as int) =~= before);
        if self.model.current_server_id == id {
            if kept.len() > 0 {
                self.model.current_server_id = kept[0].id.clone();
            } else {
                self.model.current_server_id = String::new();
            }
        }
        self.model.servers = kept;
        assert(!has_id(self@.servers, id@));
    }

    /// Gives a store without servers the default server under the id, and
    /// selects it. A store with a server stays as it is.
    pub fn ensure_default_server_with(&mut self, id: String)
        ensures
            final(self)@ == with_default_server(old(self)@, id@),
            final(self)@.servers.len() > 0,
    {
        if self.model.servers.len() == 0 {
            let server = Server {
                id: id.clone(),
                name: "默认服务器".to_owned(),
                server: "example.workers.dev:443".to_owned(),
                listen: "127.0.0.1:30000".to_owned(),
                token: String::new(),
                ip: String::new(),
                dns: "dns.alidns.com/dns-query".to_owned(),
                ech: "cloudflare-ech.com".to_owned(),
                routing_mode: "global".to_owned(),
            };
            self.model.servers.push(server);
            self.model.current_server_id = id;
            assert(self.model.servers.deep_view() =~= seq![default_server(id@)]);
        }
    }

    /// Makes sure that there is a server: a store without one is given
    /// the default server under a fresh id.
    ///
    /// Drawing the fresh id panics where the operating system has no
    /// randomness to give.
    pub fn ensure_default_server(&mut self)
        ensures
            old(self)@.servers.len() > 0 ==> final(self)@ == old(self)@,
            old(self)@.servers.len() == 0 ==> exists|number: u32|
                final(self)@ == with_default_server(old(self)@, server_id_of(number as nat)),
            final(self)@.servers.len() > 0,
    {
        if self.model.servers.len() == 0 {
            let id = generate_server_id();
            self.ensure_default_server_with(id);
        }
    }

    /// The last state.
    pub fn get_last_state(&self) -> (state: LastState)
        ensures
            state == self@.last_state,
    {
        self.model.last_state
    }

    /// Replaces the last state.
    pub fn set_last_state(&mut self, state: LastState)
        ensures
            final(self)@ == (FileModelView { last_state: state, ..old(self)@ }),
    {
        self.model.last_state = state;
    }

    /// Records a transition in the last state.
    pub fn record(&mut self, change: StateChange)
        ensures
            final(self)@ == (FileModelView {
                last_state: changed(old(self)@.last_state, change),
                ..old(self)@
            }),
    {
        let state = apply_change(self.get_last_state(), change);
        self.set_last_state(state);
    }
}

/// Setting the proxy configuration and getting it again gives the same
/// configuration back, on every store: one without servers is given a
/// server to hold it.
pub proof fn lemma_proxy_config_round_trip(
    model: FileModelView,
    config: ProxyConfigView,
    fresh_id: Seq<char>,
)
    ensures
        proxy_config_of(stored_proxy_config(model, config, fresh_id)) == config,
        stored_proxy_config(model, config, fresh_id).servers.len() > 0,
        model.servers.len() > 0 ==> stored_proxy_config(model, config, fresh_id)
            == with_proxy_config(model, config),
{
    lemma_replaced_settings_are_read_back(with_default_server(model, fresh_id), config);
}

proof fn lemma_replaced_settings_are_read_back(model: FileModelView, config: ProxyConfigView)
    requires
        model.servers.len() > 0,
    ensures
        proxy_config_of(with_proxy_config(model, config)) == config,
        with_proxy_config(model, config).servers.len() > 0,
{
    let at = selected_index(model)->0;
    let after = with_proxy_config(model, config);
    if model.current_server_id.len() > 0 && has_id(model.servers, model.current_server_id) {
        lemma_has_id_has_first(model.servers, model.current_server_id);
        assert(first_with_id(after.servers, after.current_server_id, at)) by {
            assert forall|i: int| 0 <= i < at implies after.servers[i].id
                != after.current_server_id by {
                assert(after.servers[i] == model.servers[i]);
            }
        }
        lemma_first_with_id_is_unique(after.servers, after.current_server_id, at);
    } else {
        if has_id(after.servers, after.current_server_id) {
            let some = choose|i: int|
                0 <= i < after.servers.len() && after.servers[i].id == after.current_server_id;
            assert(model.servers[some].id == model.current_server_id);
        }
    }
}

} // verus!
