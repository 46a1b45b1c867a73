//! Chrome with a fixed launch: an image that is built from a directory of
//! build instructions and run with every host integration switched on.

use vstd::prelude::*;
use crate::aspects::integration::{
    display_variable, display_variable_string, missing_devices, pulse_home_volume,
    pulse_home_volume_string, session_bus_address, session_bus_address_string,
    session_bus_home_volume, session_bus_home_volume_string, session_bus_volume,
    session_bus_volume_string, video_device_args, CAP_ADD_FLAG, DEVICE_FLAG, DISPLAY, ENV_FLAG,
    HOME, RENDER_DEVICE, SHM_VOLUME, SYSTEM_BUS_VOLUME, SYS_ADMIN_CAPABILITY, VIDEO_PREFIX,
    VOLUME_FLAG, X11_SOCKET_VOLUME, XDG_RUNTIME_DIR,
};
use crate::aspects::identity::NAME_FLAG;
use crate::aspects::settings::{
    mount_volume, mount_volume_string, CPU_SHARES_FLAG, MEMORY_FLAG, NETWORK_FLAG,
};
use crate::aspects::{missing_variable, required};
use crate::error::{result_view, Error, ErrorView};
use crate::host::{DirEntry, HostFacts};
use crate::text::starts_with;

verus! {

/// Chrome, built from the build instructions in a directory of the host.
#[derive(Debug)]
pub struct Chrome {
    path_buf: String,
    image_name: String,
    image_tag: String,
}

/// The name under which errors of the launch are reported, and the name of
/// the container.
pub const CHROME: &'static str = "chrome";

/// The repository of the image.
pub const IMAGE_NAME: &'static str = "waynr/chrome";

/// The tag of the image.
pub const IMAGE_TAG: &'static str = "v0";

/// How the name of the PulseAudio directory begins.
pub const PULSE_PREFIX: &'static str = "pulse";

/// The launch flag that keeps the input open.
pub const INTERACTIVE_FLAG: &'static str = "-i";

/// The launch flag that attaches a terminal.
pub const TTY_FLAG: &'static str = "-t";

/// The launch flag that removes the container when it exits.
pub const REMOVE_FLAG: &'static str = "--rm";

/// The network mode that shares the network of the host.
pub const HOST_NETWORK: &'static str = "host";

/// The share of processor time.
pub const CPU_SHARES: &'static str = "512";

/// The memory limit.
pub const MEMORY_LIMIT: &'static str = "3072mb";

/// The command that is run inside the container.
pub const COMMAND: &'static str = "google-chrome";

/// The argument that points Chrome at its data.
pub const USER_DATA_ARGUMENT: &'static str = "--user-data-dir=/data";

/// The image `name` under the tag `tag`.
pub open spec fn image_reference(name: Seq<char>, tag: Seq<char>) -> Seq<char> {
    name + ":"@ + tag
}

/// The volume that keeps Chrome's data below the home directory.
pub open spec fn data_volume(home: Seq<char>) -> Seq<char> {
    home + "/.config/google-chrome:/data"@
}

/// The volume for downloads below the home directory.
pub open spec fn downloads_volume(home: Seq<char>) -> Seq<char> {
    home + "/downloads:/home/wayne/Downloads"@
}

/// The path of the last entry whose name begins like the PulseAudio
/// directory; the empty path where there is none.
pub open spec fn pulse_dir(entries: Seq<DirEntry>) -> Seq<char>
    decreases entries.len(),
{
    if entries.len() == 0 {
        Seq::empty()
    } else if PULSE_PREFIX@.is_prefix_of(entries.last().file_name@) {
        entries.last().path@
    } else {
        pulse_dir(entries.drop_last())
    }
}

/// The launch arguments that do not depend on the devices of the host.
pub open spec fn fixed_args(
    home: Seq<char>,
    runtime_dir: Seq<char>,
    display: Seq<char>,
    pulse: Seq<char>,
) -> Seq<Seq<char>> {
    seq![
        INTERACTIVE_FLAG@,
        TTY_FLAG@,
        REMOVE_FLAG@,
        NETWORK_FLAG@,
        HOST_NETWORK@,
        CPU_SHARES_FLAG@,
        CPU_SHARES@,
        MEMORY_FLAG@,
        MEMORY_LIMIT@,
        CAP_ADD_FLAG@,
        SYS_ADMIN_CAPABILITY@,
        VOLUME_FLAG@,
        SHM_VOLUME@,
        VOLUME_FLAG@,
        data_volume(home),
        VOLUME_FLAG@,
        downloads_volume(home),
        ENV_FLAG@,
        display_variable(display),
        VOLUME_FLAG@,
        X11_SOCKET_VOLUME@,
        DEVICE_FLAG@,
        RENDER_DEVICE@,
        VOLUME_FLAG@,
        pulse_home_volume(home),
        VOLUME_FLAG@,
        mount_volume(pulse, pulse),
        VOLUME_FLAG@,
        session_bus_volume(runtime_dir),
        VOLUME_FLAG@,
        SYSTEM_BUS_VOLUME@,
        VOLUME_FLAG@,
        session_bus_home_volume(home),
        ENV_FLAG@,
        session_bus_address(runtime_dir),
        NAME_FLAG@,
        CHROME@,
    ]
}

/// Chrome built from the build instructions in the directory `p`.
pub fn new(p: String) -> (r: Chrome)
    ensures
        r.path() == p@,
        r.image_view() == image_reference(IMAGE_NAME@, IMAGE_TAG@),
{
    Chrome {
        image_name: String::from_str(IMAGE_NAME),
        image_tag: String::from_str(IMAGE_TAG),
        path_buf: p,
    }
}

impl Chrome {
    /// The directory of the build instructions.
    pub closed spec fn path(&self) -> Seq<char> {
        self.path_buf@
    }

    /// The image with its tag.
    pub closed spec fn image_view(&self) -> Seq<char> {
        image_reference(self.image_name@, self.image_tag@)
    }

    /// The launch arguments on the given host, where `runtime_entries` are
    /// the entries of the user's runtime directory, `None` where it could
    /// not be listed: the error for the first of home directory, runtime
    /// directory, display and the two listings that is missing, else the
    /// fixed arguments, one device for each camera, the image and the
    /// command.
    pub open spec fn run_args_spec(
        &self,
        host: &HostFacts,
        runtime_entries: Option<Vec<DirEntry>>,
    ) -> Result<Seq<Seq<char>>, ErrorView> {
        match host.env.home {
            None => Err(missing_variable(CHROME@, HOME@)),
            Some(home) => match host.env.xdg_runtime_dir {
                None => Err(missing_variable(CHROME@, XDG_RUNTIME_DIR@)),
                Some(runtime_dir) => match host.env.display {
                    None => Err(missing_variable(CHROME@, DISPLAY@)),
                    Some(display) => match runtime_entries {
                        None => Err(missing_devices(CHROME@)),
                        Some(listing) => match host.dev_entries {
                            None => Err(missing_devices(CHROME@)),
                            Some(devices) => Ok(
                                fixed_args(home@, runtime_dir@, display@, pulse_dir(listing@))
                                    + video_device_args(devices@) + seq![
                                    self.image_view(),
                                    COMMAND@,
                                    USER_DATA_ARGUMENT@,
                                ],
                            ),
                        },
                    },
                },
            },
        }
    }

    /// The directory of the build instructions.
    pub fn build_path(&self) -> (r: String)
        ensures
            r@ == self.path(),
    {
        self.path_buf.clone()
    }

    /// The image with its tag.
    pub fn image(&self) -> (r: String)
        ensures
            r@ == self.image_view(),
    {
        let mut out = self.image_name.clone();
        out.append(":");
        out.append(self.image_tag.as_str());
        out
    }

    /// The launch arguments on the given host, where `runtime_entries` are
    /// the entries of the user's runtime directory.
    pub fn run_args(&self, host: &HostFacts, runtime_entries: &Option<Vec<DirEntry>>) -> (r: Result<
        Vec<String>,
        Error,
    >)
        ensures
            result_view(r) == self.run_args_spec(host, *runtime_entries),
    {
        let home = match required(&host.env.home, CHROME, HOME) {
            Ok(v) => v,
            Err(e) => {
                return Err(e);
            },
        };
        let runtime_dir = match required(&host.env.xdg_runtime_dir, CHROME, XDG_RUNTIME_DIR) {
            Ok(v) => v,
            Err(e) => {
                return Err(e);
            },
        };
        let display = match required(&host.env.display, CHROME, DISPLAY) {
            Ok(v) => v,
            Err(e) => {
                return Err(e);
            },
        };
        let listing = match runtime_entries {
            Some(v) => v,
            None => {
                return Err(Error::MissingDevices { aspect: String::from_str(CHROME) });
            },
        };
        let devices = match &host.dev_entries {
            Some(v) => v,
            None => {
                return Err(Error::MissingDevices { aspect: String::from_str(CHROME) });
            },
        };
        let mut pulse = String::new();
        let mut i: usize = 0;
        proof {
            assert(listing@.take(0) =~= Seq::<DirEntry>::empty());
        }
        while i < listing.len()
            invariant
                i <= listing@.len(),
                pulse@ == pulse_dir(listing@.take(i as int)),
            decreases listing@.len() - i,
        {
            proof {
                assert(listing@.take(i + 1).drop_last() =~= listing@.take(i as int));
                assert(listing@.take(i + 1).last() == listing@[i as int]);
            }
            if starts_with(listing[i].file_name.as_str(), PULSE_PREFIX) {
                pulse = listing[i].path.clone();
            }
            i += 1;
        }
        proof {
            assert(listing@.take(listing@.len() as int) =~= listing@);
        }
        let mut data = home.clone();
        data.append("/.config/google-chrome:/data");
        let mut downloads = home.clone();
        downloads.append("/downloads:/home/wayne/Downloads");

        let mut args: Vec<String> = Vec::new();
        args.push(String::from_str(INTERACTIVE_FLAG));
        args.push(String::from_str(TTY_FLAG));
        args.push(String::from_str(REMOVE_FLAG));
        args.push(String::from_str(NETWORK_FLAG));
        args.push(String::from_str(HOST_NETWORK));
        args.push(String::from_str(CPU_SHARES_FLAG));
        args.push(String::from_str(CPU_SHARES));
        args.push(String::from_str(MEMORY_FLAG));
        args.push(String::from_str(MEMORY_LIMIT));
        args.push(String::from_str(CAP_ADD_FLAG));
        args.push(String::from_str(SYS_ADMIN_CAPABILITY));
        args.push(String::from_str(VOLUME_FLAG));
        args.push(String::from_str(SHM_VOLUME));
        args.push(String::from_str(VOLUME_FLAG));
        args.push(data);
        args.push(String::from_str(VOLUME_FLAG));
        args.push(downloads);
        args.push(String::from_str(ENV_FLAG));
        args.push(display_variable_string(display.as_str()));
        args.push(String::from_str(VOLUME_FLAG));
        args.push(String::from_str(X11_SOCKET_VOLUME));
        args.push(String::from_str(DEVICE_FLAG));
        args.push(String::from_str(RENDER_DEVICE));
        args.push(String::from_str(VOLUME_FLAG));
        args.push(pulse_home_volume_string(home.as_str()));
        args.push(String::from_str(VOLUME_FLAG));
        args.push(mount_volume_string(pulse.as_str(), pulse.as_str()));
        args.push(String::from_str(VOLUME_FLAG));
        args.push(session_bus_volume_string(runtime_dir.as_str()));
        args.push(String::from_str(VOLUME_FLAG));
        args.push(String::from_str(SYSTEM_BUS_VOLUME));
        args.push(String::from_str(VOLUME_FLAG));
        args.push(session_bus_home_volume_string(home.as_str()));
        args.push(String::from_str(ENV_FLAG));
        args.push(session_bus_address_string(runtime_dir.as_str()));
        args.push(String::from_str(NAME_FLAG));
        args.push(String::from_str(CHROME));
        let ghost fixed = fixed_args(home@, runtime_dir@, display@, pulse@);
        assert(args.deep_view() =~= fixed);

        let mut j: usize = 0;
        proof {
            assert(devices@.take(0) =~= Seq::<DirEntry>::empty());
            assert(args.deep_view() =~= fixed + video_device_args(devices@.take(0)));
        }
        while j < devices.len()
            invariant
                j <= devices@.len(),
                args.deep_view() == fixed + video_device_args(devices@.take(j as int)),
            decreases devices@.len() - j,
        {
            let ghost before = args.deep_view();
            proof {
                assert(devices@.take(j + 1).drop_last() =~= devices@.take(j as int));
                assert(devices@.take(j + 1).last() == devices@[j as int]);
            }
            if starts_with(devices[j].file_name.as_str(), VIDEO_PREFIX) {
                args.push(String::from_str(DEVICE_FLAG));
                args.push(devices[j].path.clone());
                assert(args.deep_view() =~= before.push(DEVICE_FLAG@).push(
                    devices@[j as int].path@,
                ));
                assert(args.deep_view() =~= fixed + video_device_args(devices@.take(j + 1)));
            }
            j += 1;
        }
        proof {
            assert(devices@.take(devices@.len() as int) =~= devices@);
        }
        let ghost with_devices = args.deep_view();
        args.push(self.image());
        args.push(String::from_str(COMMAND));
        args.push(String::from_str(USER_DATA_ARGUMENT));
        assert(args.deep_view() =~= with_devices + seq![
            self.image_view(),
            COMMAND@,
            USER_DATA_ARGUMENT@,
        ]);
        Ok(args)
    }
}

} // verus!
