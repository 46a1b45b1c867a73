//! Capabilities that connect the container to services of the host: sound,
//! display, cameras, the message bus and shared memory.

use vstd::prelude::*;
use crate::aspects::{
    missing_variable, no_files, no_flags, no_snippets, no_steps, one_snippet, one_step, required,
    same_contributions, step_then, two_args, Aspect, ContainerAspect, ContainerFile,
    ContainerFileView, DockerfileSnippet, DockerfileSnippetView,
};
use crate::cli::{CliInput, Flag, FlagView};
use crate::entrypoint::{
    group_setup, group_setup_spec, ScriptSnippet, ScriptSnippetView,
};
use crate::error::{Error, ErrorView};
use crate::host::{DirEntry, HostFacts};
use crate::text::{decimal, decimal_string, starts_with};

verus! {

/// The variable that holds the home directory.
pub const HOME: &'static str = "HOME";

/// The variable that holds the user's runtime directory.
pub const XDG_RUNTIME_DIR: &'static str = "XDG_RUNTIME_DIR";

/// The variable that names the display.
pub const DISPLAY: &'static str = "DISPLAY";

/// The launch flag that mounts a volume.
pub const VOLUME_FLAG: &'static str = "-v";

/// The launch flag that sets a variable.
pub const ENV_FLAG: &'static str = "-e";

/// The launch flag that passes a device through.
pub const DEVICE_FLAG: &'static str = "--device";

/// The group that may use sound devices.
pub const AUDIO_GROUP: &'static str = "audio";

/// The group that may use cameras.
pub const VIDEO_GROUP: &'static str = "video";

/// Sound through the PulseAudio server of the host.
#[derive(Debug, Clone, Copy)]
pub struct PulseAudio {}

/// The display name of [`PulseAudio`].
pub const PULSEAUDIO: &'static str = "PulseAudio";

/// The build instructions of [`PulseAudio`].
pub const PULSEAUDIO_PACKAGES: &'static str =
    r#"RUN apt-get update && apt-get install -y \
    --no-install-recommends \
    libavcodec-extra \
    libpulse0 \
  && apt-get purge --autoremove \
  && rm -rf /var/lib/apt/lists/* \
  && rm -rf /src/*.deb "#;

/// What the start-up step of [`PulseAudio`] does.
pub const PULSEAUDIO_DESCRIPTION: &'static str =
    "configure pulseaudio client to connect to host daemon";

/// The key of the build instructions of [`PulseAudio`].
pub const PULSEAUDIO_BUILD_ORDER: u8 = 70;

/// The key of the start-up step of [`PulseAudio`].
pub const PULSEAUDIO_STEP_ORDER: u16 = 50;

/// The volume for the PulseAudio directory below the home directory.
pub open spec fn pulse_home_volume(home: Seq<char>) -> Seq<char> {
    home
        + "/.pulse:"@
        + home
        + "/.pulse"@
}

/// Renders [`pulse_home_volume`].
pub fn pulse_home_volume_string(home: &str) -> (r: String)
    ensures
        r@ == pulse_home_volume(home@),
{
    let mut out = String::from_str(home);
    out.append("/.pulse:");
    out.append(home);
    out.append("/.pulse");
    out
}

/// The volume for the PulseAudio configuration below the home directory.
pub open spec fn pulse_config_volume(home: Seq<char>) -> Seq<char> {
    home
        + "/.config/pulse:"@
        + home
        + "/.config/pulse"@
}

/// Renders [`pulse_config_volume`].
pub fn pulse_config_volume_string(home: &str) -> (r: String)
    ensures
        r@ == pulse_config_volume(home@),
{
    let mut out = String::from_str(home);
    out.append("/.config/pulse:");
    out.append(home);
    out.append("/.config/pulse");
    out
}

/// The volume for the PulseAudio socket below the runtime directory.
pub open spec fn pulse_runtime_volume(runtime_dir: Seq<char>) -> Seq<char> {
    runtime_dir
        + "/pulse:"@
        + runtime_dir
        + "/pulse"@
}

/// Renders [`pulse_runtime_volume`].
pub fn pulse_runtime_volume_string(runtime_dir: &str) -> (r: String)
    ensures
        r@ == pulse_runtime_volume(runtime_dir@),
{
    let mut out = String::from_str(runtime_dir);
    out.append("/pulse:");
    out.append(runtime_dir);
    out.append("/pulse");
    out
}

/// The shell code that points the PulseAudio client at the socket of the
/// user numbered `uid`.
pub open spec fn pulse_client_code(uid: u32) -> Seq<char> {
    "cat << EOF > /etc/pulse/client.conf\n"@
        + "# Connect to the host's server using the mounted UNIX socket\n"@
        + "default-server = unix:/run/user/"@
        + decimal(uid as nat)
        + "/pulse/native\n"@
        + "\n"@
        + "# Prevent a server running in the container\n"@
        + "autospawn = no\n"@
        + "daemon-binary = /bin/true\n"@
        + "\n"@
        + "# Prevent the use of shared memory\n"@
        + "enable-shm = false\n"@
        + "EOF\n"@
        + "\n"@
        + "chmod 655 /etc/pulse\n"@
        + "chmod 644 /etc/pulse/client.conf"@
}

/// Renders [`pulse_client_code`].
pub fn pulse_client_code_string(uid: u32) -> (r: String)
    ensures
        r@ == pulse_client_code(uid),
{
    let mut out = String::from_str("cat << EOF > /etc/pulse/client.conf\n");
    out.append("# Connect to the host's server using the mounted UNIX socket\n");
    out.append("default-server = unix:/run/user/");
    out.append(decimal_string(uid).as_str());
    out.append("/pulse/native\n");
    out.append("\n");
    out.append("# Prevent a server running in the container\n");
    out.append("autospawn = no\n");
    out.append("daemon-binary = /bin/true\n");
    out.append("\n");
    out.append("# Prevent the use of shared memory\n");
    out.append("enable-shm = false\n");
    out.append("EOF\n");
    out.append("\n");
    out.append("chmod 655 /etc/pulse\n");
    out.append("chmod 644 /etc/pulse/client.conf");
    out
}

/// The start-up step of [`PulseAudio`] on a host where the user is numbered
/// `uid`.
pub open spec fn pulse_client_step(uid: u32) -> ScriptSnippetView {
    ScriptSnippetView {
        description: PULSEAUDIO_DESCRIPTION@,
        order: PULSEAUDIO_STEP_ORDER,
        snippet: pulse_client_code(uid),
    }
}

impl ContainerAspect for PulseAudio {
    open spec fn name_spec(&self) -> Seq<char> {
        PULSEAUDIO@
    }

    fn name(&self) -> (r: String) {
        String::from_str(PULSEAUDIO)
    }

    open spec fn run_args_spec(&self, input: Option<&CliInput>, host: &HostFacts) -> Result<
        Seq<Seq<char>>,
        ErrorView,
    > {
        match host.env.home {
            None => Err(missing_variable(PULSEAUDIO@, HOME@)),
            Some(home) => match host.env.xdg_runtime_dir {
                None => Err(missing_variable(PULSEAUDIO@, XDG_RUNTIME_DIR@)),
                Some(runtime_dir) => Ok(
                    seq![
                        VOLUME_FLAG@,
                        pulse_home_volume(home@),
                        VOLUME_FLAG@,
                        pulse_config_volume(home@),
                        VOLUME_FLAG@,
                        pulse_runtime_volume(runtime_dir@),
                    ],
                ),
            },
        }
    }

    fn run_args(&self, input: Option<&CliInput>, host: &HostFacts) -> (r: Result<
        Vec<String>,
        Error,
    >) {
        let home = match required(&host.env.home, PULSEAUDIO, HOME) {
            Ok(v) => v,
            Err(e) => {
                return Err(e);
            },
        };
        let runtime_dir = match required(&host.env.xdg_runtime_dir, PULSEAUDIO, XDG_RUNTIME_DIR) {
            Ok(v) => v,
            Err(e) => {
                return Err(e);
            },
        };
        let mut args: Vec<String> = Vec::new();
        args.push(String::from_str(VOLUME_FLAG));
        args.push(pulse_home_volume_string(home.as_str()));
        args.push(String::from_str(VOLUME_FLAG));
        args.push(pulse_config_volume_string(home.as_str()));
        args.push(String::from_str(VOLUME_FLAG));
        args.push(pulse_runtime_volume_string(runtime_dir.as_str()));
        assert(args.deep_view() =~= seq![
            VOLUME_FLAG@,
            pulse_home_volume(home@),
            VOLUME_FLAG@,
            pulse_config_volume(home@),
            VOLUME_FLAG@,
            pulse_runtime_volume(runtime_dir@),
        ]);
        Ok(args)
    }

    open spec fn config_args_spec(&self) -> Seq<FlagView> {
        Seq::empty()
    }

    fn config_args(&self) -> (r: Vec<Flag>) {
        no_flags()
    }

    open spec fn cli_build_args_spec(&self) -> Seq<FlagView> {
        Seq::empty()
    }

    fn cli_build_args(&self) -> (r: Vec<Flag>) {
        no_flags()
    }

    open spec fn dockerfile_spec(&self) -> Seq<DockerfileSnippetView> {
        seq![DockerfileSnippetView { order: PULSEAUDIO_BUILD_ORDER, content: PULSEAUDIO_PACKAGES@ }]
    }

    fn dockerfile_snippets(&self) -> (r: Vec<DockerfileSnippet>) {
        one_snippet(PULSEAUDIO_BUILD_ORDER, String::from_str(PULSEAUDIO_PACKAGES))
    }

    open spec fn container_files_spec(&self) -> Seq<ContainerFileView> {
        Seq::empty()
    }

    fn container_files(&self) -> (r: Vec<ContainerFile>) {
        no_files()
    }

    open spec fn entrypoint_spec(&self, host: &HostFacts) -> Result<
        Seq<ScriptSnippetView>,
        ErrorView,
    > {
        match group_setup_spec(AUDIO_GROUP@, host) {
            Ok(step) => Ok(seq![pulse_client_step(host.uid), step]),
            Err(e) => Err(e),
        }
    }

    fn entrypoint_snippets(&self, host: &HostFacts) -> (r: Result<Vec<ScriptSnippet>, Error>) {
        let first = ScriptSnippet {
            description: String::from_str(PULSEAUDIO_DESCRIPTION),
            order: PULSEAUDIO_STEP_ORDER,
            snippet: pulse_client_code_string(host.uid),
        };
        step_then(first, group_setup(AUDIO_GROUP, host))
    }
}

impl PulseAudio {
    /// This capability as an element of a capability list.
    pub fn aspect(self) -> (r: Aspect)
        ensures
            same_contributions(&*r.inner, &self),
    {
        Aspect { inner: Box::new(self) }
    }
}

/// Sound through the ALSA devices of the host.
#[derive(Debug, Clone, Copy)]
pub struct Alsa {}

/// The display name of [`Alsa`].
pub const ALSA: &'static str = "Alsa";

/// The sound devices of the host.
pub const SOUND_DEVICE: &'static str = "/dev/snd";

impl ContainerAspect for Alsa {
    open spec fn name_spec(&self) -> Seq<char> {
        ALSA@
    }

    fn name(&self) -> (r: String) {
        String::from_str(ALSA)
    }

    open spec fn run_args_spec(&self, input: Option<&CliInput>, host: &HostFacts) -> Result<
        Seq<Seq<char>>,
        ErrorView,
    > {
        Ok(seq![DEVICE_FLAG@, SOUND_DEVICE@])
    }

    fn run_args(&self, input: Option<&CliInput>, host: &HostFacts) -> (r: Result<
        Vec<String>,
        Error,
    >) {
        two_args(DEVICE_FLAG, SOUND_DEVICE)
    }

    open spec fn config_args_spec(&self) -> Seq<FlagView> {
        Seq::empty()
    }

    fn config_args(&self) -> (r: Vec<Flag>) {
        no_flags()
    }

    open spec fn cli_build_args_spec(&self) -> Seq<FlagView> {
        Seq::empty()
    }

    fn cli_build_args(&self) -> (r: Vec<Flag>) {
        no_flags()
    }

    open spec fn dockerfile_spec(&self) -> Seq<DockerfileSnippetView> {
        Seq::empty()
    }

    fn dockerfile_snippets(&self) -> (r: Vec<DockerfileSnippet>) {
        no_snippets()
    }

    open spec fn container_files_spec(&self) -> Seq<ContainerFileView> {
        Seq::empty()
    }

    fn container_files(&self) -> (r: Vec<ContainerFile>) {
        no_files()
    }

    open spec fn entrypoint_spec(&self, host: &HostFacts) -> Result<
        Seq<ScriptSnippetView>,
        ErrorView,
    > {
        match group_setup_spec(AUDIO_GROUP@, host) {
            Ok(step) => Ok(seq![step]),
            Err(e) => Err(e),
        }
    }

    fn entrypoint_snippets(&self, host: &HostFacts) -> (r: Result<Vec<ScriptSnippet>, Error>) {
        one_step(group_setup(AUDIO_GROUP, host))
    }
}

impl Alsa {
    /// This capability as an element of a capability list.
    pub fn aspect(self) -> (r: Aspect)
        ensures
            same_contributions(&*r.inner, &self),
    {
        Aspect { inner: Box::new(self) }
    }
}

/// Windows on the X11 display of the host.
#[derive(Debug, Clone, Copy)]
pub struct X11 {}

/// The display name of [`X11`].
pub const X11_NAME: &'static str = "X11";

/// The build instructions of [`X11`].
pub const X11_PACKAGES: &'static str =
    r#"RUN apt-get update && apt-get install -y \
    --no-install-recommends \
    libxtst6 \
  && apt-get purge --autoremove \
  && rm -rf /var/lib/apt/lists/* \
  && rm -rf /src/*.deb "#;

/// The volume for the sockets of the X11 server.
pub const X11_SOCKET_VOLUME: &'static str = "/tmp/.X11-unix:/tmp/.X11-unix";

/// The rendering devices of the host.
pub const RENDER_DEVICE: &'static str = "/dev/dri";

/// The key of the build instructions of [`X11`] and of [`Video`].
pub const DISPLAY_BUILD_ORDER: u8 = 72;

/// The setting that points clients at the host's display `display`.
pub open spec fn display_variable(display: Seq<char>) -> Seq<char> {
    "DISPLAY=unix"@
        + display
}

/// Renders [`display_variable`].
pub fn display_variable_string(display: &str) -> (r: String)
    ensures
        r@ == display_variable(display@),
{
    let mut out = String::from_str("DISPLAY=unix");
    out.append(display);
    out
}

impl ContainerAspect for X11 {
    open spec fn name_spec(&self) -> Seq<char> {
        X11_NAME@
    }

    fn name(&self) -> (r: String) {
        String::from_str(X11_NAME)
    }

    open spec fn run_args_spec(&self, input: Option<&CliInput>, host: &HostFacts) -> Result<
        Seq<Seq<char>>,
        ErrorView,
    > {
        match host.env.display {
            None => Err(missing_variable(X11_NAME@, DISPLAY@)),
            Some(display) => Ok(
                seq![
                    ENV_FLAG@,
                    display_variable(display@),
                    VOLUME_FLAG@,
                    X11_SOCKET_VOLUME@,
                    DEVICE_FLAG@,
                    RENDER_DEVICE@,
                ],
            ),
        }
    }

    fn run_args(&self, input: Option<&CliInput>, host: &HostFacts) -> (r: Result<
        Vec<String>,
        Error,
    >) {
        let display = match required(&host.env.display, X11_NAME, DISPLAY) {
            Ok(v) => v,
            Err(e) => {
                return Err(e);
            },
        };
        let mut args: Vec<String> = Vec::new();
        args.push(String::from_str(ENV_FLAG));
        args.push(display_variable_string(display.as_str()));
        args.push(String::from_str(VOLUME_FLAG));
        args.push(String::from_str(X11_SOCKET_VOLUME));
        args.push(String::from_str(DEVICE_FLAG));
        args.push(String::from_str(RENDER_DEVICE));
        assert(args.deep_view() =~= seq![
            ENV_FLAG@,
            display_variable(display@),
            VOLUME_FLAG@,
            X11_SOCKET_VOLUME@,
            DEVICE_FLAG@,
            RENDER_DEVICE@,
        ]);
        Ok(args)
    }

    open spec fn config_args_spec(&self) -> Seq<FlagView> {
        Seq::empty()
    }

    fn config_args(&self) -> (r: Vec<Flag>) {
        no_flags()
    }

    open spec fn cli_build_args_spec(&self) -> Seq<FlagView> {
        Seq::empty()
    }

    fn cli_build_args(&self) -> (r: Vec<Flag>) {
        no_flags()
    }

    open spec fn dockerfile_spec(&self) -> Seq<DockerfileSnippetView> {
        seq![DockerfileSnippetView { order: DISPLAY_BUILD_ORDER, content: X11_PACKAGES@ }]
    }

    fn dockerfile_snippets(&self) -> (r: Vec<DockerfileSnippet>) {
        one_snippet(DISPLAY_BUILD_ORDER, String::from_str(X11_PACKAGES))
    }

    open spec fn container_files_spec(&self) -> Seq<ContainerFileView> {
        Seq::empty()
    }

    fn container_files(&self) -> (r: Vec<ContainerFile>) {
        no_files()
    }

    open spec fn entrypoint_spec(&self, host: &HostFacts) -> Result<
        Seq<ScriptSnippetView>,
        ErrorView,
    > {
        Ok(Seq::empty())
    }

    fn entrypoint_snippets(&self, host: &HostFacts) -> (r: Result<Vec<ScriptSnippet>, Error>) {
        no_steps()
    }
}

impl X11 {
    /// This capability as an element of a capability list.
    pub fn aspect(self) -> (r: Aspect)
        ensures
            same_contributions(&*r.inner, &self),
    {
        Aspect { inner: Box::new(self) }
    }
}

/// The cameras of the host.
#[derive(Debug, Clone, Copy)]
pub struct Video {}

/// The display name of [`Video`].
pub const VIDEO: &'static str = "Video";

/// The build instructions of [`Video`].
pub const VIDEO_PACKAGES: &'static str =
    r#"RUN apt-get update && apt-get install -y \
    --no-install-recommends \
    libpci3 \
    libpciaccess0 \
    libegl1 \
    libgl1 \
  && apt-get purge --autoremove \
  && rm -rf /var/lib/apt/lists/* \
  && rm -rf /src/*.deb "#;

/// How the names of camera devices begin.
pub const VIDEO_PREFIX: &'static str = "video";

/// The launch arguments that pass through each entry whose name begins
/// like a camera device, in the order of the listing.
pub open spec fn video_device_args(entries: Seq<DirEntry>) -> Seq<Seq<char>>
    decreases entries.len(),
{
    if entries.len() == 0 {
        Seq::empty()
    } else if VIDEO_PREFIX@.is_prefix_of(entries.last().file_name@) {
        video_device_args(entries.drop_last()).push(DEVICE_FLAG@).push(entries.last().path@)
    } else {
        video_device_args(entries.drop_last())
    }
}

/// The error of a capability named `aspect` that needs the listing of the
/// host's devices where there is none.
pub open spec fn missing_devices(aspect: Seq<char>) -> ErrorView {
    ErrorView::MissingDevices { aspect }
}

impl ContainerAspect for Video {
    open spec fn name_spec(&self) -> Seq<char> {
        VIDEO@
    }

    fn name(&self) -> (r: String) {
        String::from_str(VIDEO)
    }

    open spec fn run_args_spec(&self, input: Option<&CliInput>, host: &HostFacts) -> Result<
        Seq<Seq<char>>,
        ErrorView,
    > {
        match host.dev_entries {
            None => Err(missing_devices(VIDEO@)),
            Some(entries) => Ok(video_device_args(entries@)),
        }
    }

    fn run_args(&self, input: Option<&CliInput>, host: &HostFacts) -> (r: Result<
        Vec<String>,
        Error,
    >) {
        let entries = match &host.dev_entries {
            Some(v) => v,
            None => {
                return Err(Error::MissingDevices { aspect: String::from_str(VIDEO) });
            },
        };
        let mut args: Vec<String> = Vec::new();
        let mut i: usize = 0;
        proof {
            assert(entries@.take(0) =~= Seq::<DirEntry>::empty());
            assert(args.deep_view() =~= Seq::<Seq<char>>::empty());
        }
        while i < entries.len()
            invariant
                i <= entries@.len(),
                args.deep_view() == video_device_args(entries@.take(i as int)),
            decreases entries@.len() - i,
        {
            let ghost before = args.deep_view();
            proof {
                assert(entries@.take(i + 1).drop_last() =~= entries@.take(i as int));
                assert(entries@.take(i + 1).last() == entries@[i as int]);
            }
            if starts_with(entries[i].file_name.as_str(), VIDEO_PREFIX) {
                args.push(String::from_str(DEVICE_FLAG));
                args.push(entries[i].path.clone());
                assert(args.deep_view() =~= before.push(DEVICE_FLAG@).push(entries@[i as int].path@));
            }
            i += 1;
        }
        proof {
            assert(entries@.take(entries@.len() as int) =~= entries@);
        }
        Ok(args)
    }

    open spec fn config_args_spec(&self) -> Seq<FlagView> {
        Seq::empty()
    }

    fn config_args(&self) -> (r: Vec<Flag>) {
        no_flags()
    }

    open spec fn cli_build_args_spec(&self) -> Seq<FlagView> {
        Seq::empty()
    }

    fn cli_build_args(&self) -> (r: Vec<Flag>) {
        no_flags()
    }

    open spec fn dockerfile_spec(&self) -> Seq<DockerfileSnippetView> {
        seq![DockerfileSnippetView { order: DISPLAY_BUILD_ORDER, content: VIDEO_PACKAGES@ }]
    }

    fn dockerfile_snippets(&self) -> (r: Vec<DockerfileSnippet>) {
        one_snippet(DISPLAY_BUILD_ORDER, String::from_str(VIDEO_PACKAGES))
    }

    open spec fn container_files_spec(&self) -> Seq<ContainerFileView> {
        Seq::empty()
    }

    fn container_files(&self) -> (r: Vec<ContainerFile>) {
        no_files()
    }

    open spec fn entrypoint_spec(&self, host: &HostFacts) -> Result<
        Seq<ScriptSnippetView>,
        ErrorView,
    > {
        match group_setup_spec(VIDEO_GROUP@, host) {
            Ok(step) => Ok(seq![step]),
            Err(e) => Err(e),
        }
    }

    fn entrypoint_snippets(&self, host: &HostFacts) -> (r: Result<Vec<ScriptSnippet>, Error>) {
        one_step(group_setup(VIDEO_GROUP, host))
    }
}

impl Video {
    /// This capability as an element of a capability list.
    pub fn aspect(self) -> (r: Aspect)
        ensures
            same_contributions(&*r.inner, &self),
    {
        Aspect { inner: Box::new(self) }
    }
}

/// The message buses of the host.
#[derive(Debug, Clone, Copy)]
pub struct DBus {}

/// The display name of [`DBus`].
pub const DBUS: &'static str = "DBus";

/// The build instructions of [`DBus`].
pub const DBUS_PACKAGES: &'static str =
    r#"RUN apt-get update && apt-get install -y \
    --no-install-recommends \
    dbus-x11 \
  && apt-get purge --autoremove \
  && rm -rf /var/lib/apt/lists/* \
  && rm -rf /src/*.deb "#;

/// The volume for the socket of the system bus.
pub const SYSTEM_BUS_VOLUME: &'static str =
    "/var/run/dbus/system_bus_socket:/var/run/dbus/system_bus_socket";

/// The key of the build instructions of [`DBus`].
pub const DBUS_BUILD_ORDER: u8 = 71;

/// The volume for the socket of the session bus below the runtime directory.
pub open spec fn session_bus_volume(runtime_dir: Seq<char>) -> Seq<char> {
    runtime_dir
        + "/bus:"@
        + runtime_dir
        + "/bus"@
}

/// Renders [`session_bus_volume`].
pub fn session_bus_volume_string(runtime_dir: &str) -> (r: String)
    ensures
        r@ == session_bus_volume(runtime_dir@),
{
    let mut out = String::from_str(runtime_dir);
    out.append("/bus:");
    out.append(runtime_dir);
    out.append("/bus");
    out
}

/// The volume for the session bus directory below the home directory.
pub open spec fn session_bus_home_volume(home: Seq<char>) -> Seq<char> {
    home
        + "/.dbus/session-bus:"@
        + home
        + "/.dbus/session-bus"@
}

/// Renders [`session_bus_home_volume`].
pub fn session_bus_home_volume_string(home: &str) -> (r: String)
    ensures
        r@ == session_bus_home_volume(home@),
{
    let mut out = String::from_str(home);
    out.append("/.dbus/session-bus:");
    out.append(home);
    out.append("/.dbus/session-bus");
    out
}

/// The setting that points clients at the session bus below the runtime
/// directory.
pub open spec fn session_bus_address(runtime_dir: Seq<char>) -> Seq<char> {
    "DBUS_SESSION_BUS_ADDRESS=unix:path="@
        + runtime_dir
        + "/bus"@
}

/// Renders [`session_bus_address`].
pub fn session_bus_address_string(runtime_dir: &str) -> (r: String)
    ensures
        r@ == session_bus_address(runtime_dir@),
{
    let mut out = String::from_str("DBUS_SESSION_BUS_ADDRESS=unix:path=");
    out.append(runtime_dir);
    out.append("/bus");
    out
}

impl ContainerAspect for DBus {
    open spec fn name_spec(&self) -> Seq<char> {
        DBUS@
    }

    fn name(&self) -> (r: String) {
        String::from_str(DBUS)
    }

    open spec fn run_args_spec(&self, input: Option<&CliInput>, host: &HostFacts) -> Result<
        Seq<Seq<char>>,
        ErrorView,
    > {
        match host.env.home {
            None => Err(missing_variable(DBUS@, HOME@)),
            Some(home) => match host.env.xdg_runtime_dir {
                None => Err(missing_variable(DBUS@, XDG_RUNTIME_DIR@)),
                Some(runtime_dir) => Ok(
                    seq![
                        VOLUME_FLAG@,
                        session_bus_volume(runtime_dir@),
                        VOLUME_FLAG@,
                        SYSTEM_BUS_VOLUME@,
                        VOLUME_FLAG@,
                        session_bus_home_volume(home@),
                        ENV_FLAG@,
                        session_bus_address(runtime_dir@),
                    ],
                ),
            },
        }
    }

    fn run_args(&self, input: Option<&CliInput>, host: &HostFacts) -> (r: Result<
        Vec<String>,
        Error,
    >) {
        let home = match required(&host.env.home, DBUS, HOME) {
            Ok(v) => v,
            Err(e) => {
                return Err(e);
            },
        };
        let runtime_dir = match required(&host.env.xdg_runtime_dir, DBUS, XDG_RUNTIME_DIR) {
            Ok(v) => v,
            Err(e) => {
                return Err(e);
            },
        };
        let mut args: Vec<String> = Vec::new();
        args.push(String::from_str(VOLUME_FLAG));
        args.push(session_bus_volume_string(runtime_dir.as_str()));
        args.push(String::from_str(VOLUME_FLAG));
        args.push(String::from_str(SYSTEM_BUS_VOLUME));
        args.push(String::from_str(VOLUME_FLAG));
        args.push(session_bus_home_volume_string(home.as_str()));
        args.push(String::from_str(ENV_FLAG));
        args.push(session_bus_address_string(runtime_dir.as_str()));
        assert(args.deep_view() =~= seq![
            VOLUME_FLAG@,
            session_bus_volume(runtime_dir@),
            VOLUME_FLAG@,
            SYSTEM_BUS_VOLUME@,
            VOLUME_FLAG@,
            session_bus_home_volume(home@),
            ENV_FLAG@,
            session_bus_address(runtime_dir@),
        ]);
        Ok(args)
    }

    open spec fn config_args_spec(&self) -> Seq<FlagView> {
        Seq::empty()
    }

    fn config_args(&self) -> (r: Vec<Flag>) {
        no_flags()
    }

    open spec fn cli_build_args_spec(&self) -> Seq<FlagView> {
        Seq::empty()
    }

    fn cli_build_args(&self) -> (r: Vec<Flag>) {
        no_flags()
    }

    open spec fn dockerfile_spec(&self) -> Seq<DockerfileSnippetView> {
        seq![DockerfileSnippetView { order: DBUS_BUILD_ORDER, content: DBUS_PACKAGES@ }]
    }

    fn dockerfile_snippets(&self) -> (r: Vec<DockerfileSnippet>) {
        one_snippet(DBUS_BUILD_ORDER, String::from_str(DBUS_PACKAGES))
    }

    open spec fn container_files_spec(&self) -> Seq<ContainerFileView> {
        Seq::empty()
    }

    fn container_files(&self) -> (r: Vec<ContainerFile>) {
        no_files()
    }

    open spec fn entrypoint_spec(&self, host: &HostFacts) -> Result<
        Seq<ScriptSnippetView>,
        ErrorView,
    > {
        Ok(Seq::empty())
    }

    fn entrypoint_snippets(&self, host: &HostFacts) -> (r: Result<Vec<ScriptSnippet>, Error>) {
        no_steps()
    }
}

impl DBus {
    /// This capability as an element of a capability list.
    pub fn aspect(self) -> (r: Aspect)
        ensures
            same_contributions(&*r.inner, &self),
    {
        Aspect { inner: Box::new(self) }
    }
}

/// The right to administer the system inside the container.
#[derive(Debug, Clone, Copy)]
pub struct SysAdmin {}

/// The display name of [`SysAdmin`].
pub const SYS_ADMIN: &'static str = "SysAdmin";

/// The launch flag that grants a capability of the kernel.
pub const CAP_ADD_FLAG: &'static str = "--cap-add";

/// The capability of the kernel that [`SysAdmin`] grants.
pub const SYS_ADMIN_CAPABILITY: &'static str = "SYS_ADMIN";

impl ContainerAspect for SysAdmin {
    open spec fn name_spec(&self) -> Seq<char> {
        SYS_ADMIN@
    }

    fn name(&self) -> (r: String) {
        String::from_str(SYS_ADMIN)
    }

    open spec fn run_args_spec(&self, input: Option<&CliInput>, host: &HostFacts) -> Result<
        Seq<Seq<char>>,
        ErrorView,
    > {
        Ok(seq![CAP_ADD_FLAG@, SYS_ADMIN_CAPABILITY@])
    }

    fn run_args(&self, input: Option<&CliInput>, host: &HostFacts) -> (r: Result<
        Vec<String>,
        Error,
    >) {
        two_args(CAP_ADD_FLAG, SYS_ADMIN_CAPABILITY)
    }

    open spec fn config_args_spec(&self) -> Seq<FlagView> {
        Seq::empty()
    }

    fn config_args(&self) -> (r: Vec<Flag>) {
        no_flags()
    }

    open spec fn cli_build_args_spec(&self) -> Seq<FlagView> {
        Seq::empty()
    }

    fn cli_build_args(&self) -> (r: Vec<Flag>) {
        no_flags()
    }

    open spec fn dockerfile_spec(&self) -> Seq<DockerfileSnippetView> {
        Seq::empty()
    }

    fn dockerfile_snippets(&self) -> (r: Vec<DockerfileSnippet>) {
        no_snippets()
    }

    open spec fn container_files_spec(&self) -> Seq<ContainerFileView> {
        Seq::empty()
    }

    fn container_files(&self) -> (r: Vec<ContainerFile>) {
        no_files()
    }

    open spec fn entrypoint_spec(&self, host: &HostFacts) -> Result<
        Seq<ScriptSnippetView>,
        ErrorView,
    > {
        Ok(Seq::empty())
    }

    fn entrypoint_snippets(&self, host: &HostFacts) -> (r: Result<Vec<ScriptSnippet>, Error>) {
        no_steps()
    }
}

impl SysAdmin {
    /// This capability as an element of a capability list.
    pub fn aspect(self) -> (r: Aspect)
        ensures
            same_contributions(&*r.inner, &self),
    {
        Aspect { inner: Box::new(self) }
    }
}

/// The shared memory of the host.
#[derive(Debug, Clone, Copy)]
pub struct Shm {}

/// The display name of [`Shm`].
pub const SHM: &'static str = "Shm";

/// The volume for the shared memory of the host.
pub const SHM_VOLUME: &'static str = "/dev/shm:/dev/shm";

impl ContainerAspect for Shm {
    open spec fn name_spec(&self) -> Seq<char> {
        SHM@
    }

    fn name(&self) -> (r: String) {
        String::from_str(SHM)
    }

    open spec fn run_args_spec(&self, input: Option<&CliInput>, host: &HostFacts) -> Result<
        Seq<Seq<char>>,
        ErrorView,
    > {
        Ok(seq![VOLUME_FLAG@, SHM_VOLUME@])
    }

    fn run_args(&self, input: Option<&CliInput>, host: &HostFacts) -> (r: Result<
        Vec<String>,
        Error,
    >) {
        two_args(VOLUME_FLAG, SHM_VOLUME)
    }

    open spec fn config_args_spec(&self) -> Seq<FlagView> {
        Seq::empty()
    }

    fn config_args(&self) -> (r: Vec<Flag>) {
        no_flags()
    }

    open spec fn cli_build_args_spec(&self) -> Seq<FlagView> {
        Seq::empty()
    }

    fn cli_build_args(&self) -> (r: Vec<Flag>) {
        no_flags()
    }

    open spec fn dockerfile_spec(&self) -> Seq<DockerfileSnippetView> {
        Seq::empty()
    }

    fn dockerfile_snippets(&self) -> (r: Vec<DockerfileSnippet>) {
        no_snippets()
    }

    open spec fn container_files_spec(&self) -> Seq<ContainerFileView> {
        Seq::empty()
    }

    fn container_files(&self) -> (r: Vec<ContainerFile>) {
        no_files()
    }

    open spec fn entrypoint_spec(&self, host: &HostFacts) -> Result<
        Seq<ScriptSnippetView>,
        ErrorView,
    > {
        Ok(Seq::empty())
    }

    fn entrypoint_snippets(&self, host: &HostFacts) -> (r: Result<Vec<ScriptSnippet>, Error>) {
        no_steps()
    }
}

impl Shm {
    /// This capability as an element of a capability list.
    pub fn aspect(self) -> (r: Aspect)
        ensures
            same_contributions(&*r.inner, &self),
    {
        Aspect { inner: Box::new(self) }
    }
}

} // verus!
