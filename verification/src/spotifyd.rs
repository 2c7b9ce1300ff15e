use vstd::prelude::*;

verus! {

/// The full configuration text for the playback daemon: a `[global]`
/// section with the account's name and password, the display name the
/// device announces, and the fixed audio backend lines.
pub open spec fn spotifyd_config_text(
    username: Seq<char>,
    password: Seq<char>,
    device_name: Seq<char>,
) -> Seq<char> {
    "[global]\n"@ + "username = \""@ + username + "\"\n"@ + "password = \""@ + password + "\"\n"@
        + "device_name = \""@ + device_name + "\"\n"@ + "backend = \"pulseaudio\"\n"@
        + "volume_controller = \"alsa\"\n"@
}

/// Render the playback daemon's configuration file for the given
/// account and device display name.
pub fn render_spotifyd_config(username: &str, password: &str, device_name: &str) -> (r: String)
    ensures
        r@ == spotifyd_config_text(username@, password@, device_name@),
{
    let mut out = String::new();
    out.append("[global]\n");
    out.append("username = \"");
    out.append(username);
    out.append("\"\n");
    out.append("password = \"");
    out.append(password);
    out.append("\"\n");
    out.append("device_name = \"");
    out.append(device_name);
    out.append("\"\n");
    out.append("backend = \"pulseaudio\"\n");
    out.append("volume_controller = \"alsa\"\n");
    proof {
        assert(out@ =~= spotifyd_config_text(username@, password@, device_name@));
    }
    out
}

} // verus!
