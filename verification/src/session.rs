//! The client's session controllers: the save file being worked on, and the
//! preferred server.
use vstd::prelude::*;
use crate::audio::{file_name_of, parse_url, path_file_name, url_outcome};
use crate::codec::{Command, SocketAddress};
use crate::errors::{BackendError, error_message};
use crate::actionview::{outcome_notice, Notice};

verus! {

/// A request to the save controller.
#[derive(Debug, PartialEq)]
pub enum SaveRequest {
    /// Show the dialog to pick a file to open (forcing the load if asked).
    OpenDialog(bool),
    /// Save to the current file, or pick one if there is none.
    SaveDialog,
    /// Pick a file to save to.
    SaveAsDialog,
    /// Open the file at this URI (forcing the load if asked).
    Open(String, bool),
    /// Save to the file at this URI.
    Save(String),
    /// Save to the current file, if there is one.
    Autosave,
    /// The server loaded a save file (or failed to).
    Loaded(Result<(), String>),
    /// The server made a save file (or failed to).
    Made(Result<(), String>),
    /// The client connected to a server.
    NewlyConnected,
}

/// Something the save controller does.
#[derive(Clone, Debug, PartialEq)]
pub enum SaveOutput {
    /// Show a file dialog: for opening (forcing the load if asked) or saving.
    ShowDialog { open: bool, force: bool },
    /// Send this command to the server.
    Send(Command),
    /// Tell the user.
    Tell(Notice),
}

/// What the window title and the save menu item say, given the current file
/// (if any) and the last component of its path (if it has one).
pub open spec fn save_labels(version: Seq<char>, cur: Option<Seq<char>>, name: Option<Seq<char>>) -> (Seq<char>, Seq<char>) {
    match cur {
        None => ("SQA ("@ + version + "): no file"@, "Save..."@),
        Some(_) => match name {
            Some(f) => ("SQA ("@ + version + "): "@ + f, "Save "@ + f),
            None => ("SQA ("@ + version + "): file opened"@, "Save current file"@),
        },
    }
}

/// The window title and the label of the save menu item (see `save_labels`).
pub fn labels_for(version: &str, cur: &Option<String>) -> (r: (String, String))
    ensures
        match *cur {
            None => (r.0@, r.1@) == save_labels(version@, None, None),
            Some(c) => (r.0@, r.1@) == save_labels(version@, Some(c@), path_file_name(c@)),
        },
{
    let mut title = String::from_str("SQA (");
    title.append(version);
    match cur {
        None => {
            title.append("): no file");
            (title, String::from_str("Save..."))
        },
        Some(c) => match file_name_of(c.as_str()) {
            Some(f) => {
                title.append("): ");
                title.append(f.as_str());
                let mut label = String::from_str("Save ");
                label.append(f.as_str());
                (title, label)
            },
            None => {
                title.append("): file opened");
                (title, String::from_str("Save current file"))
            },
        },
    }
}

/// The error shown for a URI that names no file that can be saved to or
/// opened.
fn filename_error(e: &BackendError) -> (n: Notice)
    ensures
        n matches Notice::Error(m) && m@ == "Error parsing filename: "@ + error_message(*e),
{
    let mut m = String::from_str("Error parsing filename: ");
    let t = e.message();
    m.append(t.as_str());
    Notice::Error(m)
}

/// What a request to the save controller does to the current file `cur`, and
/// what it sends and says.
pub open spec fn save_handled(
    cur0: Option<String>,
    cur1: Option<String>,
    req: SaveRequest,
    out: Seq<SaveOutput>,
) -> bool {
    match req {
        SaveRequest::OpenDialog(force) => cur1 == cur0 && out == seq![SaveOutput::ShowDialog { open: true, force }],
        SaveRequest::SaveDialog => cur1 == cur0 && match cur0 {
            Some(c) => out.len() == 1 && (out[0] matches SaveOutput::Send(Command::MakeSavefile { save_to }) && save_to@ == c@),
            None => out == seq![SaveOutput::ShowDialog { open: false, force: false }],
        },
        SaveRequest::SaveAsDialog => cur1 == cur0 && out == seq![SaveOutput::ShowDialog { open: false, force: false }],
        SaveRequest::Autosave => cur1 == cur0 && match cur0 {
            Some(c) => out.len() == 1 && (out[0] matches SaveOutput::Send(Command::MakeSavefile { save_to }) && save_to@ == c@),
            None => out.len() == 0,
        },
        SaveRequest::Open(uri, force) => exists|r: Result<crate::audio::FileUrl, BackendError>| {
            &&& url_outcome(uri@, r)
            &&& match r {
                Ok(f) => (cur1 matches Some(c) && c@ == f.path@) && out.len() == 1 && (out[0] matches SaveOutput::Send(
                    Command::LoadSavefile { load_from, force: fo },
                ) && load_from@ == f.path@ && fo == force),
                Err(e) => cur1 == cur0 && out.len() == 1 && (out[0] matches SaveOutput::Tell(Notice::Error(m))
                    && m@ == "Error parsing filename: "@ + error_message(e)),
            }
        },
        SaveRequest::Save(uri) => exists|r: Result<crate::audio::FileUrl, BackendError>| {
            &&& url_outcome(uri@, r)
            &&& match r {
                Ok(f) => (cur1 matches Some(c) && c@ == f.path@) && out.len() == 1 && (out[0] matches SaveOutput::Send(
                    Command::MakeSavefile { save_to },
                ) && save_to@ == f.path@),
                Err(e) => cur1 == cur0 && out.len() == 1 && (out[0] matches SaveOutput::Tell(Notice::Error(m))
                    && m@ == "Error parsing filename: "@ + error_message(e)),
            }
        },
        SaveRequest::Loaded(res) => {
            &&& cur1 == if res is Err { None } else { cur0 }
            &&& out.len() == 1
            &&& out[0] matches SaveOutput::Tell(n) && match res {
                Err(e) => n matches Notice::Error(m) && m@ == "Loading savefile"@ + " failed: "@ + e@,
                Ok(()) => n matches Notice::Status(m) && m@ == "Savefile loaded."@,
            }
        },
        SaveRequest::Made(res) => {
            &&& cur1 == if res is Err { None } else { cur0 }
            &&& out.len() == 1
            &&& out[0] matches SaveOutput::Tell(n) && match res {
                Err(e) => n matches Notice::Error(m) && m@ == "Saving"@ + " failed: "@ + e@,
                Ok(()) => n matches Notice::Status(m) && m@ == "Saved to "@ + match cur0 {
                    Some(c) => c@,
                    None => "???"@,
                } + "."@,
            }
        },
        SaveRequest::NewlyConnected => cur1 is None && out.len() == 0,
    }
}

/// Handles a request to the save controller (see `save_handled`).
pub fn on_save_request(cur: &mut Option<String>, req: SaveRequest) -> (out: Vec<SaveOutput>)
    ensures
        save_handled(*old(cur), *final(cur), req, out@),
{
    match req {
        SaveRequest::OpenDialog(force) => {
            let out = vec![SaveOutput::ShowDialog { open: true, force }];
            proof {
                assert(out@ =~= seq![SaveOutput::ShowDialog { open: true, force }]);
            }
            out
        },
        SaveRequest::SaveDialog | SaveRequest::Autosave => {
            let ghost r = req;
            match cur {
                Some(c) => vec![SaveOutput::Send(Command::MakeSavefile { save_to: c.clone() })],
                None => {
                    if let SaveRequest::SaveDialog = req {
                        let out = vec![SaveOutput::ShowDialog { open: false, force: false }];
                        proof {
                            assert(out@ =~= seq![SaveOutput::ShowDialog { open: false, force: false }]);
                        }
                        out
                    } else {
                        Vec::new()
                    }
                },
            }
        },
        SaveRequest::SaveAsDialog => {
            let out = vec![SaveOutput::ShowDialog { open: false, force: false }];
            proof {
                assert(out@ =~= seq![SaveOutput::ShowDialog { open: false, force: false }]);
            }
            out
        },
        SaveRequest::Open(uri, force) => {
            let r = parse_url(uri.as_str());
            match r {
                Ok(f) => {
                    *cur = Some(f.path.clone());
                    let out = vec![SaveOutput::Send(Command::LoadSavefile { load_from: f.path.clone(), force })];
                    proof {
                        assert(url_outcome(uri@, Ok::<crate::audio::FileUrl, BackendError>(f)));
                    }
                    out
                },
                Err(e) => {
                    let n = filename_error(&e);
                    let out = vec![SaveOutput::Tell(n)];
                    proof {
                        assert(url_outcome(uri@, Err::<crate::audio::FileUrl, BackendError>(e)));
                    }
                    out
                },
            }
        },
        SaveRequest::Save(uri) => {
            let r = parse_url(uri.as_str());
            match r {
                Ok(f) => {
                    *cur = Some(f.path.clone());
                    let out = vec![SaveOutput::Send(Command::MakeSavefile { save_to: f.path.clone() })];
                    proof {
                        assert(url_outcome(uri@, Ok::<crate::audio::FileUrl, BackendError>(f)));
                    }
                    out
                },
                Err(e) => {
                    let n = filename_error(&e);
                    let out = vec![SaveOutput::Tell(n)];
                    proof {
                        assert(url_outcome(uri@, Err::<crate::audio::FileUrl, BackendError>(e)));
                    }
                    out
                },
            }
        },
        SaveRequest::Loaded(res) => {
            let n = outcome_notice("Loading savefile", "Savefile loaded.", &res);
            if res.is_err() {
                *cur = None;
            }
            vec![SaveOutput::Tell(n)]
        },
        SaveRequest::Made(res) => {
            let mut done = String::from_str("Saved to ");
            match cur {
                Some(c) => done.append(c.as_str()),
                None => done.append("???"),
            }
            done.append(".");
            let n = outcome_notice("Saving", done.as_str(), &res);
            if res.is_err() {
                *cur = None;
            }
            vec![SaveOutput::Tell(n)]
        },
        SaveRequest::NewlyConnected => {
            *cur = None;
            Vec::new()
        },
    }
}

/// The client's preferred server, and the server it is connected to.
#[derive(Clone, Copy, Debug, PartialEq, Eq, Structural)]
pub struct ServerPrefs {
    /// The server to connect to at startup, if any.
    pub server: Option<SocketAddress>,
    /// The server last connected to, if any.
    pub current: Option<SocketAddress>,
}

/// A request to the preferences.
#[derive(Clone, Copy, Debug, PartialEq, Eq, Structural)]
pub enum PrefsRequest {
    /// Make this the server to connect to at startup (or none).
    SetServer(Option<SocketAddress>),
    /// Make the current server the one to connect to at startup (or none).
    SetServerCurrent(bool),
    /// The client connected to this server.
    NewlyConnected(SocketAddress),
}

/// What a request to the preferences does: the new preferences, whether they
/// are written to the preferences file, and whether the "connect at startup"
/// box is ticked afterwards (the startup server is the current one).
pub fn on_prefs_request(p: ServerPrefs, req: PrefsRequest) -> (r: (ServerPrefs, bool, bool))
    ensures
        r.0 == match req {
            PrefsRequest::SetServer(a) => ServerPrefs { server: a, current: p.current },
            PrefsRequest::SetServerCurrent(sc) => ServerPrefs { server: if sc { p.current } else { None }, current: p.current },
            PrefsRequest::NewlyConnected(a) => ServerPrefs { server: p.server, current: Some(a) },
        },
        r.1 == !(req is NewlyConnected),
        r.2 == (r.0.server == r.0.current),
{
    let (np, save) = match req {
        PrefsRequest::SetServer(a) => (ServerPrefs { server: a, current: p.current }, true),
        PrefsRequest::SetServerCurrent(sc) => {
            (ServerPrefs { server: if sc { p.current } else { None }, current: p.current }, true)
        },
        PrefsRequest::NewlyConnected(a) => (ServerPrefs { server: p.server, current: Some(a) }, false),
    };
    let ticked = np.server == np.current;
    (np, save, ticked)
}

} // verus!
