//! The settings of the daemon and the builders that validate them.
//!
//! The daemon runs on one of two platforms. On [`Platform::Unix`] it needs
//! a socket directory; on [`Platform::Windows`] it needs a directory for the
//! files that hand the auth token to a client. The section of the other
//! platform may be there or not.
//!
//! The library does not look at the file system. Whoever hands it a
//! directory also says what is found at that path, as a [`PathStatus`].

use std::rc::Rc;
use vstd::prelude::*;
use crate::error::{SasdError, SasdErrorView, SasdResult};
use crate::text::{decimal, decimal_string, join2};

verus! {

/// The smallest port that the daemon accepts.
pub const MIN_PORT: u16 = 1024;

/// The platform that the daemon runs on.
#[derive(Debug, PartialEq, Eq, Clone, Copy, Structural)]
pub enum Platform {
    /// The platform on which a client is trusted by the socket it reaches.
    Unix,
    /// The platform on which a client proves itself by reading a token from
    /// a file that only it and the daemon can see.
    Windows,
}

/// What is found at a path.
#[derive(Debug, PartialEq, Eq, Clone, Copy, Structural)]
pub enum PathStatus {
    /// Nothing is there.
    Missing,
    /// Something is there that is no directory.
    NotDirectory,
    /// A directory is there.
    Directory,
}

/// The settings as shared by the connections: read by all, written by none.
pub type SettingsHandle = Rc<Settings>;

/// Wraps settings for sharing.
pub fn new_settings_handle(settings: Settings) -> (handle: SettingsHandle)
    ensures
        *handle == settings,
{
    Rc::new(settings)
}

/// The section of a configuration that holds for Windows.
#[derive(Debug)]
pub struct WindowsConfig {
    pub token_data_dir: String,
}

/// The section of a configuration that holds for Unix.
#[derive(Debug)]
pub struct UnixConfig {
    pub socket_dir: String,
}

/// A configuration as it is read, before validation.
#[derive(Debug)]
pub struct SettingsConfig {
    pub port: u16,
    pub unix: Option<UnixConfig>,
    pub windows: Option<WindowsConfig>,
}

/// The mathematical model of a [`SettingsConfig`].
pub struct ConfigView {
    pub port: u16,
    pub unix: Option<Seq<char>>,
    pub windows: Option<Seq<char>>,
}

impl View for SettingsConfig {
    type V = ConfigView;

    open spec fn view(&self) -> ConfigView {
        ConfigView {
            port: self.port,
            unix: match self.unix {
                Some(u) => Some(u.socket_dir@),
                None => None,
            },
            windows: match self.windows {
                Some(w) => Some(w.token_data_dir@),
                None => None,
            },
        }
    }
}

/// The validated section for Windows.
#[derive(Debug)]
pub struct WindowsSection {
    pub token_data_dir: String,
}

/// The validated section for Unix.
#[derive(Debug)]
pub struct UnixSection {
    pub socket_dir: String,
}

/// The mathematical model of a [`SettingsBuilder`]: what has been set so
/// far.
pub struct BuilderView {
    pub platform: Platform,
    pub port: Option<u16>,
    pub unix: Option<Seq<char>>,
    pub windows: Option<Seq<char>>,
}

/// The mathematical model of [`Settings`].
pub struct SettingsView {
    pub platform: Platform,
    pub port: u16,
    pub unix: Option<Seq<char>>,
    pub windows: Option<Seq<char>>,
}

/// Whether settings are valid: the port is not below [`MIN_PORT`] and the
/// section of the platform is there.
pub open spec fn settings_ok(s: SettingsView) -> bool {
    &&& s.port >= MIN_PORT
    &&& s.platform == Platform::Unix ==> s.unix is Some
    &&& s.platform == Platform::Windows ==> s.windows is Some
}

/// The error that says why a setting was refused.
pub open spec fn settings_error(text: Seq<char>) -> SasdErrorView {
    SasdErrorView::SettingsError(text)
}

/// What validating a path gives: the path itself where a directory is
/// found there, else the error that says what is wrong.
pub open spec fn validate_path_spec(path: Seq<char>, status: PathStatus) -> Result<
    Seq<char>,
    SasdErrorView,
> {
    match status {
        PathStatus::Missing => Err(settings_error("path does not exist: "@ + path)),
        PathStatus::NotDirectory => Err(settings_error("path is not a directory: "@ + path)),
        PathStatus::Directory => Ok(path),
    }
}

/// What setting the port gives.
pub open spec fn port_spec(b: BuilderView, port: u16) -> Result<BuilderView, SasdErrorView> {
    if port < MIN_PORT {
        Err(
            settings_error(
                "port: value must not be less than 1024, got "@ + decimal(port as nat),
            ),
        )
    } else {
        Ok(BuilderView { port: Some(port), ..b })
    }
}

/// What closing the section for Unix gives, where `dir` is the socket
/// directory that was set, if any.
pub open spec fn unix_done_spec(b: BuilderView, dir: Option<Seq<char>>) -> Result<
    BuilderView,
    SasdErrorView,
> {
    match dir {
        Some(d) => Ok(BuilderView { unix: Some(d), ..b }),
        None => if b.platform == Platform::Unix {
            Err(settings_error("Missing socket directory"@))
        } else {
            Ok(b)
        },
    }
}

/// What closing the section for Windows gives, where `dir` is the token
/// data directory that was set, if any.
pub open spec fn windows_done_spec(b: BuilderView, dir: Option<Seq<char>>) -> Result<
    BuilderView,
    SasdErrorView,
> {
    match dir {
        Some(d) => Ok(BuilderView { windows: Some(d), ..b }),
        None => if b.platform == Platform::Windows {
            Err(settings_error("Missing token data directory"@))
        } else {
            Ok(b)
        },
    }
}

/// What building the settings gives.
pub open spec fn build_spec(b: BuilderView) -> Result<SettingsView, SasdErrorView> {
    if b.platform == Platform::Unix && b.unix is None {
        Err(settings_error("Missing unix configuration"@))
    } else if b.platform == Platform::Windows && b.windows is None {
        Err(settings_error("Missing windows configuration"@))
    } else {
        match b.port {
            Some(p) => Ok(
                SettingsView { platform: b.platform, port: p, unix: b.unix, windows: b.windows },
            ),
            None => Err(settings_error("Missing config value: port"@)),
        }
    }
}

/// What taking the section for Unix from a configuration gives.
pub open spec fn from_unix_config_spec(
    b: BuilderView,
    unix: Option<Seq<char>>,
    status: PathStatus,
) -> Result<BuilderView, SasdErrorView> {
    match unix {
        Some(dir) => match validate_path_spec(dir, status) {
            Ok(d) => unix_done_spec(b, Some(d)),
            Err(e) => Err(e),
        },
        None => if b.platform == Platform::Unix {
            Err(settings_error("Missing unix configuration"@))
        } else {
            Ok(b)
        },
    }
}

/// What taking the section for Windows from a configuration gives.
pub open spec fn from_windows_config_spec(
    b: BuilderView,
    windows: Option<Seq<char>>,
    status: PathStatus,
) -> Result<BuilderView, SasdErrorView> {
    match windows {
        Some(dir) => match validate_path_spec(dir, status) {
            Ok(d) => windows_done_spec(b, Some(d)),
            Err(e) => Err(e),
        },
        None => if b.platform == Platform::Windows {
            Err(settings_error("Missing windows configuration"@))
        } else {
            Ok(b)
        },
    }
}

/// The builder that nothing has been set in.
pub open spec fn empty_builder(platform: Platform) -> BuilderView {
    BuilderView { platform, port: None, unix: None, windows: None }
}

/// What building settings from a configuration gives: the port is set,
/// then the section for Unix, then the one for Windows, and the first
/// error ends it.
pub open spec fn from_config_spec(
    platform: Platform,
    config: ConfigView,
    unix_status: PathStatus,
    windows_status: PathStatus,
) -> Result<SettingsView, SasdErrorView> {
    match port_spec(empty_builder(platform), config.port) {
        Err(e) => Err(e),
        Ok(b) => match from_unix_config_spec(b, config.unix, unix_status) {
            Err(e) => Err(e),
            Ok(b) => match from_windows_config_spec(b, config.windows, windows_status) {
                Err(e) => Err(e),
                Ok(b) => build_spec(b),
            },
        },
    }
}

fn settings_failure(text: String) -> (e: SasdError)
    ensures
        e@ == settings_error(text@),
{
    SasdError::SettingsError(text)
}

/// Builds the section for Unix of some settings.
#[derive(Debug)]
pub struct UnixBuilder {
    pub _builder: SettingsBuilder,
    pub socket_dir: Option<String>,
}

/// Builds the section for Windows of some settings.
#[derive(Debug)]
pub struct WindowsBuilder {
    pub _builder: SettingsBuilder,
    pub token_data_dir: Option<String>,
}

/// The mathematical model of a [`UnixBuilder`] or a [`WindowsBuilder`]:
/// the builder that it will hand back, and the directory that was set.
pub struct SectionView {
    pub builder: BuilderView,
    pub dir: Option<Seq<char>>,
}

impl View for UnixBuilder {
    type V = SectionView;

    open spec fn view(&self) -> SectionView {
        SectionView {
            builder: self._builder@,
            dir: match self.socket_dir {
                Some(d) => Some(d@),
                None => None,
            },
        }
    }
}

impl View for WindowsBuilder {
    type V = SectionView;

    open spec fn view(&self) -> SectionView {
        SectionView {
            builder: self._builder@,
            dir: match self.token_data_dir {
                Some(d) => Some(d@),
                None => None,
            },
        }
    }
}

impl UnixBuilder {
    /// Starts the section for Unix, with no socket directory set.
    pub fn new(builder: SettingsBuilder) -> (r: Self)
        ensures
            r@ == (SectionView { builder: builder@, dir: None }),
    {
        UnixBuilder { _builder: builder, socket_dir: None }
    }

    /// Sets the socket directory, where `status` says what is found at
    /// `dir`. Fails unless a directory is found there.
    pub fn socket_dir(self, dir: String, status: PathStatus) -> (r: SasdResult<Self>)
        ensures
            match validate_path_spec(dir@, status) {
                Ok(d) => r is Ok && r->Ok_0@ == (SectionView { dir: Some(d), ..self@ }),
                Err(e) => r is Err && r->Err_0@ == e,
            },
    {
        let mut this = self;
        let checked = this._builder.validate_path(dir, status)?;
        this.socket_dir = Some(checked);
        Ok(this)
    }

    /// Closes the section. On Unix this fails if no socket directory was
    /// set; elsewhere the section may stay empty.
    pub fn unix_done(self) -> (r: SasdResult<SettingsBuilder>)
        ensures
            match unix_done_spec(self@.builder, self@.dir) {
                Ok(b) => r is Ok && r->Ok_0@ == b,
                Err(e) => r is Err && r->Err_0@ == e,
            },
    {
        let mut builder = self._builder;
        proof {
            use_type_invariant(&builder);
        }
        match self.socket_dir {
            Some(s) => {
                builder.unix = Some(UnixSection { socket_dir: s });
                Ok(builder)
            },
            None => {
                if builder.platform == Platform::Unix {
                    Err(settings_failure(String::from_str("Missing socket directory")))
                } else {
                    Ok(builder)
                }
            },
        }
    }
}

impl WindowsBuilder {
    /// Starts the section for Windows, with no token data directory set.
    pub fn new(builder: SettingsBuilder) -> (r: Self)
        ensures
            r@ == (SectionView { builder: builder@, dir: None }),
    {
        WindowsBuilder { _builder: builder, token_data_dir: None }
    }

    /// Sets the directory for the token files, where `status` says what is
    /// found at `dir`. Fails unless a directory is found there.
    pub fn token_data_dir(self, dir: String, status: PathStatus) -> (r: SasdResult<Self>)
        ensures
            match validate_path_spec(dir@, status) {
                Ok(d) => r is Ok && r->Ok_0@ == (SectionView { dir: Some(d), ..self@ }),
                Err(e) => r is Err && r->Err_0@ == e,
            },
    {
        let mut this = self;
        let checked = this._builder.validate_path(dir, status)?;
        this.token_data_dir = Some(checked);
        Ok(this)
    }

    /// Closes the section. On Windows this fails if no token data
    /// directory was set; elsewhere the section may stay empty.
    pub fn windows_done(self) -> (r: SasdResult<SettingsBuilder>)
        ensures
            match windows_done_spec(self@.builder, self@.dir) {
                Ok(b) => r is Ok && r->Ok_0@ == b,
                Err(e) => r is Err && r->Err_0@ == e,
            },
    {
        let mut builder = self._builder;
        proof {
            use_type_invariant(&builder);
        }
        match self.token_data_dir {
            Some(t) => {
                builder.windows = Some(WindowsSection { token_data_dir: t });
                Ok(builder)
            },
            None => {
                if builder.platform == Platform::Windows {
                    Err(settings_failure(String::from_str("Missing token data directory")))
                } else {
                    Ok(builder)
                }
            },
        }
    }
}

/// Collects the settings and validates each as it is set.
#[derive(Debug)]
pub struct SettingsBuilder {
    platform: Platform,
    port: Option<u16>,
    unix: Option<UnixSection>,
    windows: Option<WindowsSection>,
}

impl View for SettingsBuilder {
    type V = BuilderView;

    closed spec fn view(&self) -> BuilderView {
        BuilderView {
            platform: self.platform,
            port: self.port,
            unix: match self.unix {
                Some(u) => Some(u.socket_dir@),
                None => None,
            },
            windows: match self.windows {
                Some(w) => Some(w.token_data_dir@),
                None => None,
            },
        }
    }
}

impl SettingsBuilder {
    #[verifier::type_invariant]
    closed spec fn wf(&self) -> bool {
        self.port is Some ==> self.port->Some_0 >= MIN_PORT
    }

    /// The builder for the given platform, with nothing set.
    pub fn new(platform: Platform) -> (r: Self)
        ensures
            r@ == empty_builder(platform),
    {
        SettingsBuilder { platform, port: None, unix: None, windows: None }
    }

    /// Takes the section for Unix out of a configuration, where `status`
    /// says what is found at its socket directory.
    pub fn from_unix_config(self, config: &mut SettingsConfig, status: PathStatus) -> (r:
        SasdResult<Self>)
        ensures
            final(config)@ == (ConfigView { unix: None, ..old(config)@ }),
            match from_unix_config_spec(self@, old(config)@.unix, status) {
                Ok(b) => r is Ok && r->Ok_0@ == b,
                Err(e) => r is Err && r->Err_0@ == e,
            },
    {
        let unix_config = config.unix.take();
        match unix_config {
            Some(c) => self.unix().socket_dir(c.socket_dir, status)?.unix_done(),
            None => {
                if self.platform == Platform::Unix {
                    Err(settings_failure(String::from_str("Missing unix configuration")))
                } else {
                    Ok(self)
                }
            },
        }
    }

    /// Takes the section for Windows out of a configuration, where `status`
    /// says what is found at its token data directory.
    pub fn from_windows_config(self, config: &mut SettingsConfig, status: PathStatus) -> (r:
        SasdResult<Self>)
        ensures
            final(config)@ == (ConfigView { windows: None, ..old(config)@ }),
            match from_windows_config_spec(self@, old(config)@.windows, status) {
                Ok(b) => r is Ok && r->Ok_0@ == b,
                Err(e) => r is Err && r->Err_0@ == e,
            },
    {
        let windows_config = config.windows.take();
        match windows_config {
            Some(c) => self.windows().token_data_dir(c.token_data_dir, status)?.windows_done(),
            None => {
                if self.platform == Platform::Windows {
                    Err(settings_failure(String::from_str("Missing windows configuration")))
                } else {
                    Ok(self)
                }
            },
        }
    }

    /// Builds the settings for `platform` from a configuration, where the
    /// two statuses say what is found at the socket directory and at the
    /// token data directory.
    pub fn from_config(
        platform: Platform,
        config: SettingsConfig,
        unix_status: PathStatus,
        windows_status: PathStatus,
    ) -> (r: SasdResult<Settings>)
        ensures
            match from_config_spec(platform, config@, unix_status, windows_status) {
                Ok(s) => r is Ok && r->Ok_0@ == s,
                Err(e) => r is Err && r->Err_0@ == e,
            },
    {
        let mut config = config;
        let builder = SettingsBuilder::new(platform);
        let builder = builder.port(config.port)?;
        let builder = builder.from_unix_config(&mut config, unix_status)?;
        let builder = builder.from_windows_config(&mut config, windows_status)?;
        builder.build()
    }

    /// Opens the section for Unix.
    pub fn unix(self) -> (r: UnixBuilder)
        ensures
            r@ == (SectionView { builder: self@, dir: None }),
    {
        UnixBuilder::new(self)
    }

    /// Opens the section for Windows.
    pub fn windows(self) -> (r: WindowsBuilder)
        ensures
            r@ == (SectionView { builder: self@, dir: None }),
    {
        WindowsBuilder::new(self)
    }

    /// Sets the port. Fails if it is below [`MIN_PORT`].
    pub fn port(self, port: u16) -> (r: SasdResult<Self>)
        ensures
            match port_spec(self@, port) {
                Ok(b) => r is Ok && r->Ok_0@ == b,
                Err(e) => r is Err && r->Err_0@ == e,
            },
    {
        if port < MIN_PORT {
            let n = decimal_string(port as u64);
            let text = join2("port: value must not be less than 1024, got ", n.as_str());
            return Err(settings_failure(text));
        }
        let mut this = self;
        this.port = Some(port);
        Ok(this)
    }

    /// Builds the settings. Fails if the section of the platform or the
    /// port is missing.
    pub fn build(self) -> (r: SasdResult<Settings>)
        ensures
            match build_spec(self@) {
                Ok(s) => r is Ok && r->Ok_0@ == s,
                Err(e) => r is Err && r->Err_0@ == e,
            },
    {
        if self.platform == Platform::Unix && self.unix.is_none() {
            return Err(settings_failure(String::from_str("Missing unix configuration")));
        }
        if self.platform == Platform::Windows && self.windows.is_none() {
            return Err(settings_failure(String::from_str("Missing windows configuration")));
        }
        proof {
            use_type_invariant(&self);
        }
        match self.port {
            Some(p) => Ok(
                Settings { platform: self.platform, port: p, unix: self.unix, windows: self.windows },
            ),
            None => Err(settings_failure(String::from_str("Missing config value: port"))),
        }
    }

    /// Validates a path, where `status` says what is found there: hands it
    /// back if that is a directory.
    pub fn validate_path(&self, path: String, status: PathStatus) -> (r: SasdResult<String>)
        ensures
            match validate_path_spec(path@, status) {
                Ok(d) => r is Ok && r->Ok_0@ == d,
                Err(e) => r is Err && r->Err_0@ == e,
            },
    {
        match status {
            PathStatus::Missing => Err(
                settings_failure(join2("path does not exist: ", path.as_str())),
            ),
            PathStatus::NotDirectory => Err(
                settings_failure(join2("path is not a directory: ", path.as_str())),
            ),
            PathStatus::Directory => Ok(path),
        }
    }
}

/// The validated settings of the daemon.
#[derive(Debug)]
pub struct Settings {
    platform: Platform,
    port: u16,
    unix: Option<UnixSection>,
    windows: Option<WindowsSection>,
}

impl View for Settings {
    type V = SettingsView;

    closed spec fn view(&self) -> SettingsView {
        SettingsView {
            platform: self.platform,
            port: self.port,
            unix: match self.unix {
                Some(u) => Some(u.socket_dir@),
                None => None,
            },
            windows: match self.windows {
                Some(w) => Some(w.token_data_dir@),
                None => None,
            },
        }
    }
}

impl Settings {
    #[verifier::type_invariant]
    closed spec fn wf(&self) -> bool {
        settings_ok(self@)
    }

    /// The platform that the settings are for.
    pub fn platform(&self) -> (p: Platform)
        ensures
            p == self@.platform,
            settings_ok(self@),
    {
        proof {
            use_type_invariant(self);
        }
        self.platform
    }

    /// The port, which is never below [`MIN_PORT`].
    pub fn port(&self) -> (p: u16)
        ensures
            p == self@.port,
            p >= MIN_PORT,
    {
        proof {
            use_type_invariant(self);
        }
        self.port
    }

    /// The section for Unix, which is there on Unix at least.
    pub fn unix(&self) -> (r: Option<&UnixSection>)
        ensures
            match r {
                Some(u) => self@.unix == Some(u.socket_dir@),
                None => self@.unix is None,
            },
            self@.platform == Platform::Unix ==> r is Some,
    {
        proof {
            use_type_invariant(self);
        }
        match self.unix {
            Some(ref u) => Some(u),
            None => None,
        }
    }

    /// The section for Windows, which is there on Windows at least.
    pub fn windows(&self) -> (r: Option<&WindowsSection>)
        ensures
            match r {
                Some(w) => self@.windows == Some(w.token_data_dir@),
                None => self@.windows is None,
            },
            self@.platform == Platform::Windows ==> r is Some,
    {
        proof {
            use_type_invariant(self);
        }
        match self.windows {
            Some(ref w) => Some(w),
            None => None,
        }
    }
}

/// Settings that were built are valid, whatever they were built from.
pub proof fn lemma_build_valid(b: BuilderView)
    requires
        b.port is Some ==> b.port->Some_0 >= MIN_PORT,
    ensures
        build_spec(b) is Ok ==> settings_ok(build_spec(b)->Ok_0),
{
}

/// A port below [`MIN_PORT`] is refused, whatever else the builder holds.
pub proof fn lemma_low_port_refused(b: BuilderView, port: u16)
    requires
        port < MIN_PORT,
    ensures
        port_spec(b, port) is Err,
{
}

/// A path at which no directory is found is refused.
pub proof fn lemma_bad_path_refused(path: Seq<char>, status: PathStatus)
    requires
        status != PathStatus::Directory,
    ensures
        validate_path_spec(path, status) is Err,
{
}

/// Settings that are built for Unix from a valid port and a socket
/// directory hold that port and that directory.
pub proof fn lemma_unix_roundtrip(port: u16, dir: Seq<char>)
    requires
        port >= MIN_PORT,
    ensures
        ({
            let b = port_spec(empty_builder(Platform::Unix), port)->Ok_0;
            let d = validate_path_spec(dir, PathStatus::Directory)->Ok_0;
            let s = build_spec(unix_done_spec(b, Some(d))->Ok_0);
            &&& s is Ok
            &&& s->Ok_0.port == port
            &&& s->Ok_0.unix == Some(dir)
            &&& s->Ok_0.platform == Platform::Unix
        }),
{
}

/// Settings that are built for Windows from a valid port and a token data
/// directory hold that port and that directory.
pub proof fn lemma_windows_roundtrip(port: u16, dir: Seq<char>)
    requires
        port >= MIN_PORT,
    ensures
        ({
            let b = port_spec(empty_builder(Platform::Windows), port)->Ok_0;
            let d = validate_path_spec(dir, PathStatus::Directory)->Ok_0;
            let s = build_spec(windows_done_spec(b, Some(d))->Ok_0);
            &&& s is Ok
            &&& s->Ok_0.port == port
            &&& s->Ok_0.windows == Some(dir)
            &&& s->Ok_0.platform == Platform::Windows
        }),
{
}

/// Settings that are built from a configuration with a valid port and a
/// directory for the platform hold the port and the directories of that
/// configuration.
pub proof fn lemma_config_roundtrip(
    platform: Platform,
    config: ConfigView,
    unix_status: PathStatus,
    windows_status: PathStatus,
)
    requires
        config.port >= MIN_PORT,
        config.unix is Some ==> unix_status == PathStatus::Directory,
        config.windows is Some ==> windows_status == PathStatus::Directory,
        platform == Platform::Unix ==> config.unix is Some,
        platform == Platform::Windows ==> config.windows is Some,
    ensures
        from_config_spec(platform, config, unix_status, windows_status) == Ok::<
            SettingsView,
            SasdErrorView,
        >(
            SettingsView {
                platform,
                port: config.port,
                unix: config.unix,
                windows: config.windows,
            },
        ),
{
}

} // verus!
