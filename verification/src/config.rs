//! How Navi is started: as a file browser or as a file chooser.
use vstd::prelude::*;
use vstd::string::*;
use crate::chooser::ChooserLaunch;

verus! {

/// Whether Navi browses files or chooses one for a caller.
#[derive(Debug, Clone, Copy, PartialEq, Eq, Structural)]
pub enum NaviMode {
    Browser,
    FileChooser,
}

impl Default for NaviMode {
    fn default() -> (m: NaviMode)
        ensures
            m == NaviMode::Browser,
    {
        NaviMode::Browser
    }
}

/// `dirs::home_dir`: the current user's home directory, if one is known. It
/// depends on the environment; all that is stated of it is that a known home
/// directory is never empty (an empty `HOME` or password-file entry counts as
/// none).
#[verifier::external_body]
fn home_dir() -> (res: Option<String>)
    ensures
        res matches Some(h) ==> h@.len() > 0,
{
    dirs::home_dir().map(|p| p.to_string_lossy().into_owned())
}

/// The start-up settings of a Navi window.
pub struct NaviConfig {
    pub mode: NaviMode,
    pub title: String,
    pub app_id: String,
    pub start_dir: String,
    pub chooser: Option<ChooserLaunch>,
}

/// How a chooser window is placed: as a layer-shell surface in `namespace`,
/// anchored to all four edges of the display, taking the keyboard on demand.
/// (Its margins, a third of the display's height and width, are computed from
/// the display's size in floating point where the window is opened.)
pub struct LayerShellPlan {
    pub namespace: String,
    pub anchor_left: bool,
    pub anchor_right: bool,
    pub anchor_top: bool,
    pub anchor_bottom: bool,
    pub keyboard_on_demand: bool,
}

/// How the window is opened: its title, application id, size in pixels
/// (placed at the origin), transparent background, and, for the chooser, the
/// layer-shell placement (a browser is a normal window).
pub struct WindowPlan {
    pub title: String,
    pub app_id: String,
    pub width: u32,
    pub height: u32,
    pub transparent: bool,
    pub layer_shell: Option<LayerShellPlan>,
}

impl NaviConfig {
    /// The window these settings open: 500 by 200 pixels with a transparent
    /// background; a chooser is a layer-shell surface named after its title,
    /// anchored to every edge and taking the keyboard on demand; a browser is
    /// a normal window.
    pub fn window_plan(&self) -> (w: WindowPlan)
        ensures
            w.title@ == self.title@,
            w.app_id@ == self.app_id@,
            w.width == 500,
            w.height == 200,
            w.transparent,
            match self.mode {
                NaviMode::FileChooser => (w.layer_shell matches Some(l) && {
                    &&& l.namespace@ == self.title@
                    &&& l.anchor_left && l.anchor_right && l.anchor_top && l.anchor_bottom
                    &&& l.keyboard_on_demand
                }),
                NaviMode::Browser => w.layer_shell.is_none(),
            },
    {
        let is_chooser = self.mode == NaviMode::FileChooser;
        let layer_shell = if is_chooser {
            Some(LayerShellPlan {
                namespace: self.title.clone(),
                anchor_left: true,
                anchor_right: true,
                anchor_top: true,
                anchor_bottom: true,
                keyboard_on_demand: true,
            })
        } else {
            None
        };
        WindowPlan {
            title: self.title.clone(),
            app_id: self.app_id.clone(),
            width: 500,
            height: 200,
            transparent: true,
            layer_shell,
        }
    }

    /// The browser settings for a user whose home directory is `home`
    /// (`None` when there is none): titled "Navi", starting in the home
    /// directory, or in `/` without one.
    pub fn config_for_home(home: Option<String>) -> (c: NaviConfig)
        ensures
            c.mode == NaviMode::Browser,
            c.title@ == "Navi"@,
            c.app_id@ == "navi"@,
            c.start_dir@ == match home {
                Some(h) => h@,
                None => "/"@,
            },
            c.chooser.is_none(),
    {
        let start_dir = match home {
            Some(h) => h,
            None => String::from_str("/"),
        };
        NaviConfig {
            mode: NaviMode::Browser,
            title: String::from_str("Navi"),
            app_id: String::from_str("navi"),
            start_dir,
            chooser: None,
        }
    }

    /// The settings of the file chooser launched for `launch`, for a user
    /// whose home directory is `home`: titled "Open File", with its own
    /// application id, starting where the browser would.
    pub fn file_chooser_for_home(launch: ChooserLaunch, home: Option<String>) -> (c: NaviConfig)
        ensures
            c.mode == NaviMode::FileChooser,
            c.title@ == "Open File"@,
            c.app_id@ == "navi-file-chooser"@,
            c.start_dir@ == match home {
                Some(h) => h@,
                None => "/"@,
            },
            c.chooser == Some(launch),
    {
        let base = NaviConfig::config_for_home(home);
        NaviConfig {
            mode: NaviMode::FileChooser,
            title: String::from_str("Open File"),
            app_id: String::from_str("navi-file-chooser"),
            chooser: Some(launch),
            start_dir: base.start_dir,
        }
    }

    /// The settings of the file chooser launched for `launch`, for the
    /// current user (see `file_chooser_for_home`; the home directory comes
    /// from the environment).
    pub fn file_chooser(launch: ChooserLaunch) -> (c: NaviConfig)
        ensures
            c.mode == NaviMode::FileChooser,
            c.title@ == "Open File"@,
            c.app_id@ == "navi-file-chooser"@,
            c.start_dir@.len() > 0,
            c.chooser == Some(launch),
    {
        proof {
            reveal_strlit("/");
        }
        NaviConfig::file_chooser_for_home(launch, home_dir())
    }
}

impl Default for NaviConfig {
    /// The browser settings for the current user (see `config_for_home`; the
    /// home directory comes from the environment).
    fn default() -> (c: NaviConfig)
        ensures
            c.mode == NaviMode::Browser,
            c.title@ == "Navi"@,
            c.app_id@ == "navi"@,
            c.start_dir@.len() > 0,
            c.chooser.is_none(),
    {
        proof {
            reveal_strlit("/");
        }
        NaviConfig::config_for_home(home_dir())
    }
}

} // verus!
