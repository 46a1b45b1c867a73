//! The applications: for each, the capability that installs it, the
//! capabilities of the host that it uses, its image and its command.

use vstd::prelude::*;

pub mod chrome;
pub mod discord;
pub mod drawio;
pub mod firefox;
pub mod signal;
pub mod skype;
pub mod steam;
pub mod thinkorswim;
pub mod zoom;

verus! {

/// The font configuration that Chrome and Skype bring along.
pub const FONT_CONFIGURATION: &'static str =
    r#"<?xml version='1.0'?>
<!DOCTYPE fontconfig SYSTEM 'fonts.dtd'>
<fontconfig>
<match target="font">
<edit mode="assign" name="rgba">
<const>rgb</const>
</edit>
</match>
<match target="font">
<edit mode="assign" name="hinting">
<bool>true</bool>
</edit>
</match>
<match target="font">
<edit mode="assign" name="hintstyle">
<const>hintslight</const>
</edit>
</match>
<match target="font">
<edit mode="assign" name="antialias">
<bool>true</bool>
</edit>
</match>
<match target="font">
<edit mode="assign" name="lcdfilter">
<const>lcddefault</const>
</edit>
</match>
<match target="font">
<edit name="embeddedbitmap" mode="assign">
<bool>false</bool>
</edit>
</match>
</fontconfig>"#;

/// The build instructions that install the font configuration.
pub const FONT_INSTRUCTIONS: &'static str =
    r#"COPY /etc/fonts/local.conf /etc/fonts/local.conf
RUN chmod 655 /etc/fonts
RUN chmod 644 /etc/fonts/local.conf"#;

/// The image of `repository` under the tag `version`.
pub open spec fn image_tag(repository: Seq<char>, version: Seq<char>) -> Seq<char> {
    repository + ":"@ + version
}

/// Renders [`image_tag`].
pub fn image_tag_string(repository: &str, version: &str) -> (r: String)
    ensures
        r@ == image_tag(repository@, version@),
{
    let mut out = String::from_str(repository);
    out.append(":");
    out.append(version);
    out
}

} // verus!
