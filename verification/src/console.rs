use vstd::prelude::*;

verus! {

/// How many console lines the launcher keeps.
pub const LOG_CAPACITY: usize = 64;

/// The console after `line` was written to `logs`: the line goes last, and the oldest
/// line goes when the console would hold more than `LOG_CAPACITY` lines.
pub open spec fn spec_log_push(logs: Seq<Seq<char>>, line: Seq<char>) -> Seq<Seq<char>> {
    if logs.len() + 1 > LOG_CAPACITY {
        logs.push(line).drop_first()
    } else {
        logs.push(line)
    }
}

/// The lines that greet the user when the launcher opens.
pub open spec fn welcome_lines() -> Seq<Seq<char>> {
    seq![
        "Bootstrapper Loaded."@,
        "-------------------------------"@,
        "If you haven't yet, please join our discord!"@,
        "We need your help and your suggestions!"@,
        "discord.gg/E9y6WfEdPW"@,
        "-------------------------------"@,
    ]
}

/// What the launch worker tells the window.
pub enum LaunchMessage {
    /// A line for the console.
    Log(String),
    /// The launch ended: Vortex runs, or the error's text.
    Done(Result<(), String>),
}

/// The ghost form of a `LaunchMessage`, with strings as characters.
pub enum LaunchMessageView {
    Log(Seq<char>),
    Done(Result<(), Seq<char>>),
}

impl View for LaunchMessage {
    type V = LaunchMessageView;

    open spec fn view(&self) -> LaunchMessageView {
        match self {
            LaunchMessage::Log(l) => LaunchMessageView::Log(l@),
            LaunchMessage::Done(Ok(())) => LaunchMessageView::Done(Ok(())),
            LaunchMessage::Done(Err(e)) => LaunchMessageView::Done(Err(e@)),
        }
    }
}

/// The launcher's window state as values.
pub struct AppView {
    /// Vortex was started by this launcher and has not been seen to exit.
    pub vortex_running: bool,
    /// The line under the welcome text.
    pub status: Seq<char>,
    /// Look for an update before launching.
    pub check_updates_on_launch: bool,
    /// A launch is under way or Vortex runs; the buttons are disabled.
    pub launched: bool,
    /// An update was found (kept for the window; nothing sets it).
    pub new_update_available: bool,
    /// Quit the launcher once Vortex runs.
    pub close_launcher: bool,
    /// The console's lines, oldest first.
    pub logs: Seq<Seq<char>>,
    /// The launch worker may still send messages.
    pub launch_pending: bool,
}

/// The launcher's window state: the console, the status line, the options and
/// whether Vortex is being launched or runs.
pub struct App {
    vortex_running: bool,
    status: String,
    check_updates_on_launch: bool,
    launched: bool,
    new_update_available: bool,
    close_launcher: bool,
    logs: Vec<String>,
    launch_pending: bool,
}

impl View for App {
    type V = AppView;

    closed spec fn view(&self) -> AppView {
        AppView {
            vortex_running: self.vortex_running,
            status: self.status@,
            check_updates_on_launch: self.check_updates_on_launch,
            launched: self.launched,
            new_update_available: self.new_update_available,
            close_launcher: self.close_launcher,
            logs: self.logs@.map_values(|l: String| l@),
            launch_pending: self.launch_pending,
        }
    }
}

/// The state of a freshly opened launcher.
pub open spec fn initial_app() -> AppView {
    AppView {
        vortex_running: false,
        status: Seq::empty(),
        check_updates_on_launch: true,
        launched: false,
        new_update_available: false,
        close_launcher: false,
        logs: welcome_lines(),
        launch_pending: false,
    }
}

/// The state after a launch message arrived.
pub open spec fn spec_on_launch_message(app: AppView, msg: LaunchMessage) -> AppView {
    match msg {
        LaunchMessage::Log(line) => AppView { logs: spec_log_push(app.logs, line@), ..app },
        LaunchMessage::Done(Ok(())) => AppView {
            logs: spec_log_push(app.logs, "Vortex launched."@),
            vortex_running: true,
            launch_pending: false,
            ..app
        },
        LaunchMessage::Done(Err(e)) => AppView {
            status: "Launch failed: "@ + e@,
            logs: spec_log_push(
                spec_log_push(app.logs, "Launch error: "@ + e@),
                "If you're unsure of the cause, feel free to contact us in our discord."@,
            ),
            launched: false,
            launch_pending: false,
            ..app
        },
    }
}

impl Default for App {
    fn default() -> (res: App)
        ensures
            res@ == initial_app(),
    {
        let mut logs: Vec<String> = Vec::new();
        logs.push(String::from_str("Bootstrapper Loaded."));
        logs.push(String::from_str("-------------------------------"));
        logs.push(String::from_str("If you haven't yet, please join our discord!"));
        logs.push(String::from_str("We need your help and your suggestions!"));
        logs.push(String::from_str("discord.gg/E9y6WfEdPW"));
        logs.push(String::from_str("-------------------------------"));
        assert(logs@.map_values(|l: String| l@) =~= welcome_lines());
        App {
            status: String::new(),
            check_updates_on_launch: true,
            launched: false,
            new_update_available: false,
            launch_pending: false,
            close_launcher: false,
            vortex_running: false,
            logs,
        }
    }
}

impl App {
    #[verifier::type_invariant]
    spec fn console_fits(self) -> bool {
        self.logs.len() <= LOG_CAPACITY
    }

    /// The console never holds more than `LOG_CAPACITY` lines.
    pub fn console_is_bounded(&self)
        ensures
            self@.logs.len() <= LOG_CAPACITY,
    {
        proof {
            use_type_invariant(self);
        }
    }

    /// Appends a line to the console, dropping the oldest line past `LOG_CAPACITY`.
    pub fn push_log(&mut self, message: String)
        ensures
            final(self)@ == (AppView { logs: spec_log_push(old(self)@.logs, message@), ..old(self)@ }),
    {
        proof {
            use_type_invariant(&*self);
        }
        let mut logs = Vec::new();
        std::mem::swap(&mut logs, &mut self.logs);
        let ghost before = logs@;
        logs.push(message);
        if logs.len() > LOG_CAPACITY {
            logs.remove(0);
        }
        assert(logs@.map_values(|l: String| l@) =~= spec_log_push(
            before.map_values(|l: String| l@),
            message@,
        ));
        self.logs = logs;
    }

    /// The console's lines, oldest first.
    pub fn log_lines(&self) -> (res: &Vec<String>)
        ensures
            res@.map_values(|l: String| l@) == self@.logs,
    {
        &self.logs
    }

    /// Empties the console.
    pub fn clear_logs(&mut self)
        ensures
            final(self)@ == (AppView { logs: Seq::empty(), ..old(self)@ }),
    {
        proof {
            use_type_invariant(&*self);
        }
        self.logs = Vec::new();
        assert(self.logs@.map_values(|l: String| l@) =~= Seq::<Seq<char>>::empty());
    }

    /// The status line.
    pub fn status_text(&self) -> (res: &str)
        ensures
            res@ == self@.status,
    {
        self.status.as_str()
    }

    /// Whether the launcher looks for an update before launching.
    pub fn check_updates_on_launch(&self) -> (res: bool)
        ensures
            res == self@.check_updates_on_launch,
    {
        self.check_updates_on_launch
    }

    /// Sets whether the launcher looks for an update before launching.
    pub fn set_check_updates_on_launch(&mut self, on: bool)
        ensures
            final(self)@ == (AppView { check_updates_on_launch: on, ..old(self)@ }),
    {
        proof {
            use_type_invariant(&*self);
        }
        self.check_updates_on_launch = on;
    }

    /// Whether the launcher quits once Vortex runs.
    pub fn close_launcher(&self) -> (res: bool)
        ensures
            res == self@.close_launcher,
    {
        self.close_launcher
    }

    /// Sets whether the launcher quits once Vortex runs.
    pub fn set_close_launcher(&mut self, on: bool)
        ensures
            final(self)@ == (AppView { close_launcher: on, ..old(self)@ }),
    {
        proof {
            use_type_invariant(&*self);
        }
        self.close_launcher = on;
    }

    /// Whether a launch is under way or Vortex runs.
    pub fn launched(&self) -> (res: bool)
        ensures
            res == self@.launched,
    {
        self.launched
    }

    /// Whether Vortex, started by this launcher, still runs as far as is known.
    pub fn vortex_running(&self) -> (res: bool)
        ensures
            res == self@.vortex_running,
    {
        self.vortex_running
    }

    /// Whether the launch worker may still send messages.
    pub fn launch_pending(&self) -> (res: bool)
        ensures
            res == self@.launch_pending,
    {
        self.launch_pending
    }

    /// Whether an update was found.
    pub fn new_update_available(&self) -> (res: bool)
        ensures
            res == self@.new_update_available,
    {
        self.new_update_available
    }

    /// Whether the buttons that start work are enabled: only while nothing is launched.
    pub fn controls_enabled(&self) -> (res: bool)
        ensures
            res == !self@.launched,
    {
        !self.launched
    }

    /// The hint under the launch button.
    pub fn update_hint(&self) -> (res: &'static str)
        ensures
            res@ == (if self@.check_updates_on_launch {
                ""@
            } else {
                "Update checking is disabled."@
            }),
    {
        if self.check_updates_on_launch {
            ""
        } else {
            "Update checking is disabled."
        }
    }

    /// The "Check for updates" button: turns the check on and says so.
    pub fn start_update_check(&mut self)
        ensures
            final(self)@ == (AppView {
                check_updates_on_launch: true,
                status: "Checking for updates..."@,
                logs: spec_log_push(old(self)@.logs, "Update check started."@),
                ..old(self)@
            }),
    {
        proof {
            use_type_invariant(&*self);
        }
        self.check_updates_on_launch = true;
        self.status = String::from_str("Checking for updates...");
        self.push_log(String::from_str("Update check started."));
    }

    /// Reports the outcome of opening the mods folder, or the error's text.
    pub fn mods_folder_opened(&mut self, result: Result<(), String>)
        ensures
            final(self)@ == (AppView {
                logs: spec_log_push(
                    old(self)@.logs,
                    match result {
                        Ok(()) => "Opened mods folder"@,
                        Err(e) => "Error while opening mods folder: "@ + e@,
                    },
                ),
                ..old(self)@
            }),
    {
        proof {
            use_type_invariant(&*self);
        }
        match result {
            Ok(()) => self.push_log(String::from_str("Opened mods folder")),
            Err(e) => {
                let mut line = String::from_str("Error while opening mods folder: ");
                line.append(e.as_str());
                self.push_log(line);
            },
        }
    }

    /// The "Launch Vortex" button. While a launch is under way nothing happens and the
    /// result is `None`; otherwise the launch is marked as started and the result tells
    /// whether it looks for an update first.
    pub fn start_launch(&mut self) -> (res: Option<bool>)
        ensures
            old(self)@.launched ==> res is None && final(self)@ == old(self)@,
            !old(self)@.launched ==> res == Some(old(self)@.check_updates_on_launch)
                && final(self)@ == (AppView {
                launched: true,
                status: "Vortex Active"@,
                launch_pending: true,
                ..old(self)@
            }),
    {
        proof {
            use_type_invariant(&*self);
        }
        if self.launched {
            return None;
        }
        self.launched = true;
        self.status = String::from_str("Vortex Active");
        self.launch_pending = true;
        Some(self.check_updates_on_launch)
    }

    /// Vortex exited; `exit_text` describes how.
    pub fn vortex_exited(&mut self, exit_text: &str)
        ensures
            final(self)@ == (AppView {
                status: "Vortex AIS is ready for launch"@,
                logs: spec_log_push(old(self)@.logs, "Vortex closed: "@ + exit_text@),
                vortex_running: false,
                launched: false,
                ..old(self)@
            }),
    {
        proof {
            use_type_invariant(&*self);
        }
        self.status = String::from_str("Vortex AIS is ready for launch");
        let mut line = String::from_str("Vortex closed: ");
        line.append(exit_text);
        self.push_log(line);
        proof {
            use_type_invariant(&*self);
        }
        self.vortex_running = false;
        self.launched = false;
    }

    /// Asking whether Vortex still runs failed with `err`; the launcher stops watching it.
    pub fn vortex_check_failed(&mut self, err: &str)
        ensures
            final(self)@ == (AppView {
                logs: spec_log_push(old(self)@.logs, "Process check failed: "@ + err@),
                vortex_running: false,
                launched: false,
                ..old(self)@
            }),
    {
        proof {
            use_type_invariant(&*self);
        }
        let mut line = String::from_str("Process check failed: ");
        line.append(err);
        self.push_log(line);
        proof {
            use_type_invariant(&*self);
        }
        self.vortex_running = false;
        self.launched = false;
    }

    /// Takes a message of the launch worker. The result is whether the launcher should
    /// quit now: only when Vortex was started and "Close bootstrapper" is on.
    pub fn on_launch_message(&mut self, msg: LaunchMessage) -> (quit: bool)
        ensures
            final(self)@ == spec_on_launch_message(old(self)@, msg),
            quit == (msg matches LaunchMessage::Done(Ok(())) && old(self)@.close_launcher),
    {
        proof {
            use_type_invariant(&*self);
        }
        let ghost m = msg;
        match msg {
            LaunchMessage::Log(line) => {
                self.push_log(line);
                false
            },
            LaunchMessage::Done(Ok(())) => {
                self.push_log(String::from_str("Vortex launched."));
                proof {
                    use_type_invariant(&*self);
                }
                self.vortex_running = true;
                self.launch_pending = false;
                self.close_launcher
            },
            LaunchMessage::Done(Err(e)) => {
                let mut status = String::from_str("Launch failed: ");
                status.append(e.as_str());
                self.status = status;
                let mut line = String::from_str("Launch error: ");
                line.append(e.as_str());
                self.push_log(line);
                self.push_log(
                    String::from_str(
                        "If you're unsure of the cause, feel free to contact us in our discord.",
                    ),
                );
                proof {
                    use_type_invariant(&*self);
                }
                self.launched = false;
                self.launch_pending = false;
                false
            },
        }
    }
}

/// The console keeps the newest lines: a written line comes last, the console never
/// grows past `LOG_CAPACITY`, and what it holds is the end of the old lines followed
/// by the new one.
pub proof fn lemma_log_keeps_newest(logs: Seq<Seq<char>>, line: Seq<char>)
    requires
        logs.len() <= LOG_CAPACITY,
    ensures
        ({
            let after = spec_log_push(logs, line);
            &&& after.len() <= LOG_CAPACITY
            &&& after.last() == line
            &&& after.len() == if logs.len() < LOG_CAPACITY {
                (logs.len() + 1) as int
            } else {
                LOG_CAPACITY as int
            }
            &&& after == logs.push(line).skip(logs.len() + 1 - after.len())
        }),
{
    let after = spec_log_push(logs, line);
    if logs.len() + 1 > LOG_CAPACITY {
        assert(after =~= logs.push(line).skip(1));
    } else {
        assert(after =~= logs.push(line).skip(0));
    }
}

/// What each launch message does to the window, field by field.
/// - A console line only adds that line as the console's last line.
/// - A successful outcome records that Vortex runs and adds "Vortex launched." last, but
///   keeps the launch marked (the buttons stay disabled while Vortex runs) and keeps the
///   status line.
/// - A failed outcome ends the launch (the buttons come back), shows the error in the
///   status line, and ends the console with the advice to ask for help.
pub proof fn lemma_launch_message_effects(app: AppView, msg: LaunchMessage)
    ensures
        ({
            let after = spec_on_launch_message(app, msg);
            &&& after.check_updates_on_launch == app.check_updates_on_launch
            &&& after.close_launcher == app.close_launcher
            &&& after.new_update_available == app.new_update_available
            &&& after.logs.len() > 0
            &&& match msg {
                LaunchMessage::Log(line) => {
                    &&& after.logs.last() == line@
                    &&& after.launched == app.launched
                    &&& after.vortex_running == app.vortex_running
                    &&& after.launch_pending == app.launch_pending
                    &&& after.status == app.status
                },
                LaunchMessage::Done(Ok(())) => {
                    &&& after.logs.last() == "Vortex launched."@
                    &&& after.launched == app.launched
                    &&& after.vortex_running
                    &&& !after.launch_pending
                    &&& after.status == app.status
                },
                LaunchMessage::Done(Err(e)) => {
                    &&& after.logs.last()
                        == "If you're unsure of the cause, feel free to contact us in our discord."@
                    &&& !after.launched
                    &&& after.vortex_running == app.vortex_running
                    &&& !after.launch_pending
                    &&& after.status == "Launch failed: "@ + e@
                },
            }
        }),
{
}

} // verus!
