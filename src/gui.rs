use vstd::prelude::*;
use vstd::string::*;

use crate::auth::ConnectionStatus;
use crate::comms::CommChannelsApp;
use crate::phone::{parses_as_phone_number, validate};
use crate::text::{decimal_i32, lines, parse_i32, split_lines, views};
use crate::user::UserData;

verus! {

/// Shown when the phone number typed in is not a valid number.
pub const USER_PHONE_INPUT_ERROR: &'static str = "Unable to validate phone number. Check that your phone number is correctly formatted as an international phone number (i.e. +1-(404)-123-4567)";

/// Which input fields hide what is typed.
pub struct Config {
    pub hide_phone: bool,
    pub hide_code: bool,
    pub hide_pass: bool,
}

impl Default for Config {
    /// Only the password is hidden.
    fn default() -> (r: Self)
        ensures
            !r.hide_phone,
            !r.hide_code,
            r.hide_pass,
    {
        Config { hide_phone: false, hide_code: false, hide_pass: true }
    }
}

/// What the input fields hold.
pub struct Cache {
    pub user_phone: String,
    pub user_code: String,
    pub user_pwd: String,
    pub phones_input: String,
    pub api_id: String,
    pub api_hash: String,
}

impl Cache {
    /// Every field empty.
    pub fn new() -> (r: Cache)
        ensures
            r.user_phone@.len() == 0,
            r.user_code@.len() == 0,
            r.user_pwd@.len() == 0,
            r.phones_input@.len() == 0,
            r.api_id@.len() == 0,
            r.api_hash@.len() == 0,
    {
        Cache {
            user_phone: String::new(),
            user_code: String::new(),
            user_pwd: String::new(),
            phones_input: String::new(),
            api_id: String::new(),
            api_hash: String::new(),
        }
    }
}

/// The UI context's state: what it shows, what was typed, and its ends of
/// the channel set.
pub struct Telegather {
    pub config: Config,
    pub error_message: Option<String>,
    pub info_message: Option<String>,
    pub user_phone: Option<String>,
    pub cache: Cache,
    pub connection_status: ConnectionStatus,
    pub comm_channels: CommChannelsApp,
    pub user_data: Option<Vec<UserData>>,
}

/// The colour family in which the status bar shows a status.
#[derive(Debug, Clone, Copy, PartialEq, Eq, Structural)]
pub enum StatusTone {
    /// Application credentials are still needed.
    Gray,
    /// Not connected yet.
    DarkGray,
    /// A credential is awaited.
    Yellow,
    /// Signed in.
    Green,
}

/// The tone of each status.
pub open spec fn tone_of(s: ConnectionStatus) -> StatusTone {
    match s {
        ConnectionStatus::RequiresApiInfo => StatusTone::Gray,
        ConnectionStatus::NotConnected => StatusTone::DarkGray,
        ConnectionStatus::AwaitingPhoneNumber => StatusTone::Yellow,
        ConnectionStatus::AwaitingUserCode => StatusTone::Yellow,
        ConnectionStatus::AwaitingPassword => StatusTone::Yellow,
        ConnectionStatus::Authorized => StatusTone::Green,
    }
}

/// The tone in which the status bar shows `status`.
pub fn status_tone(status: ConnectionStatus) -> (r: StatusTone)
    ensures
        r == tone_of(status),
{
    match status {
        ConnectionStatus::RequiresApiInfo => StatusTone::Gray,
        ConnectionStatus::NotConnected => StatusTone::DarkGray,
        ConnectionStatus::AwaitingPhoneNumber
        | ConnectionStatus::AwaitingUserCode
        | ConnectionStatus::AwaitingPassword => StatusTone::Yellow,
        ConnectionStatus::Authorized => StatusTone::Green,
    }
}

/// The message shown when the worker stopped with `report`.
pub open spec fn exit_message(report: Seq<char>) -> Seq<char> {
    "Client exited with an error: "@ + report + "\nPlease restart the app and try again"@
}

/// The lines of `ls` that are phone numbers, in order.
pub open spec fn valid_lines(ls: Seq<Seq<char>>) -> Seq<Seq<char>>
    decreases ls.len(),
{
    if ls.len() == 0 {
        Seq::empty()
    } else if parses_as_phone_number(ls.last()) {
        valid_lines(ls.drop_last()).push(ls.last())
    } else {
        valid_lines(ls.drop_last())
    }
}

/// Relies on `watch::Receiver::borrow_and_update`: whether the status changed
/// since the last look, and its latest value. Both depend on the worker.
#[verifier::external_body]
fn latest_status(rx: &mut tokio::sync::watch::Receiver<ConnectionStatus>) -> (ConnectionStatus, bool) {
    let seen = rx.borrow_and_update();
    (*seen, seen.has_changed())
}

/// Relies on `oneshot::Receiver::try_recv`: the worker's exit report, shown in
/// debug form, if it has been sent.
#[verifier::external_body]
fn exit_report(rx: &mut tokio::sync::oneshot::Receiver<anyhow::Error>) -> Option<String> {
    match rx.try_recv() {
        Ok(e) => Some(format!("{e:?}")),
        Err(_) => None,
    }
}

/// Relies on `mpsc::Receiver::try_recv`: a result set, if one is waiting.
#[verifier::external_body]
fn waiting_results(rx: &mut tokio::sync::mpsc::Receiver<Vec<UserData>>) -> Option<Vec<UserData>> {
    rx.try_recv().ok()
}

impl Telegather {
    /// A UI that has shown nothing yet, over the UI's ends of the channels.
    pub fn new(comm_channels: CommChannelsApp) -> (r: Telegather)
        ensures
            r.connection_status == ConnectionStatus::RequiresApiInfo,
            r.error_message is None,
            r.info_message is None,
            r.user_phone is None,
            r.user_data is None,
            r.cache.user_phone@.len() == 0,
            r.cache.user_code@.len() == 0,
            r.cache.user_pwd@.len() == 0,
            r.cache.phones_input@.len() == 0,
            r.comm_channels == comm_channels,
    {
        Telegather {
            config: Config::default(),
            error_message: None,
            info_message: None,
            user_phone: None,
            cache: Cache::new(),
            connection_status: ConnectionStatus::RequiresApiInfo,
            comm_channels,
            user_data: None,
        }
    }

    /// Takes a look at the broadcast status: the shown status follows it only
    /// when it changed since the last look.
    pub fn apply_status(&mut self, latest: ConnectionStatus, changed: bool)
        ensures
            final(self).connection_status == (if changed {
                latest
            } else {
                old(self).connection_status
            }),
            final(self).error_message == old(self).error_message,
            final(self).user_data == old(self).user_data,
            final(self).user_phone == old(self).user_phone,
            final(self).info_message == old(self).info_message,
            final(self).cache == old(self).cache,
            final(self).comm_channels == old(self).comm_channels,
    {
        if changed {
            self.connection_status = latest;
        }
    }

    /// Takes the worker's exit report, if any: it becomes the error shown.
    pub fn apply_exit_report(&mut self, report: Option<String>)
        ensures
            match report {
                Some(text) => final(self).error_message matches Some(m) && m@ == exit_message(
                    text@,
                ),
                None => final(self).error_message == old(self).error_message,
            },
            final(self).connection_status == old(self).connection_status,
            final(self).user_data == old(self).user_data,
            final(self).user_phone == old(self).user_phone,
            final(self).info_message == old(self).info_message,
            final(self).cache == old(self).cache,
            final(self).comm_channels == old(self).comm_channels,
    {
        if let Some(text) = report {
            let mut message = String::from_str("Client exited with an error: ");
            message.append(text.as_str());
            message.append("\nPlease restart the app and try again");
            self.error_message = Some(message);
        }
    }

    /// Takes a waiting result set, if any: it becomes the results shown.
    pub fn apply_results(&mut self, results: Option<Vec<UserData>>)
        ensures
            final(self).user_data == (match results {
                Some(users) => Some(users),
                None => old(self).user_data,
            }),
            final(self).connection_status == old(self).connection_status,
            final(self).error_message == old(self).error_message,
            final(self).user_phone == old(self).user_phone,
            final(self).info_message == old(self).info_message,
            final(self).cache == old(self).cache,
            final(self).comm_channels == old(self).comm_channels,
    {
        if let Some(users) = results {
            self.user_data = Some(users);
        }
    }

    /// One look at the channels, once per frame: the status broadcast, the
    /// worker's exit report and the result queue, none of them blocking.
    pub fn poll_channels(&mut self)
        ensures
            final(self).user_phone == old(self).user_phone,
            final(self).info_message == old(self).info_message,
            final(self).cache == old(self).cache,
            final(self).comm_channels.api_info_tx == old(self).comm_channels.api_info_tx,
            final(self).comm_channels.user_phone_tx == old(self).comm_channels.user_phone_tx,
            final(self).comm_channels.user_code_tx == old(self).comm_channels.user_code_tx,
            final(self).comm_channels.pass_receive_tx == old(self).comm_channels.pass_receive_tx,
            old(self).error_message is Some ==> final(self).error_message is Some,
    {
        let (latest, changed) = latest_status(&mut self.comm_channels.connection_status_rx);
        self.apply_status(latest, changed);
        let report = exit_report(&mut self.comm_channels.client_exit_error_rx);
        self.apply_exit_report(report);
        let results = waiting_results(&mut self.comm_channels.user_data_rx);
        self.apply_results(results);
    }

    /// Sends the application id and secret typed in, once both are there and
    /// the id reads as an `i32`; an id that does not read is reported.
    pub fn send_api_info(&mut self)
        ensures
            old(self).cache.api_id@.len() == 0 || old(self).cache.api_hash@.len() == 0 ==> (
            final(self).comm_channels.api_info_tx == old(self).comm_channels.api_info_tx
                && final(self).info_message == old(self).info_message),
            old(self).cache.api_id@.len() > 0 && old(self).cache.api_hash@.len() > 0 ==> match decimal_i32(old(self).cache.api_id@) {
                Some(_) => final(self).comm_channels.api_info_tx is None,
                None => final(self).comm_channels.api_info_tx == old(self).comm_channels.api_info_tx
                    && (final(self).info_message matches Some(m) && m@ == "Invalid API_ID: '"@
                    + old(self).cache.api_id@ + "'"@),
            },
    {
        if self.cache.api_id.as_str().unicode_len() == 0 || self.cache.api_hash.as_str().unicode_len() == 0 {
            return ;
        }
        match parse_i32(self.cache.api_id.as_str()) {
            Some(api_id) => {
                if let Some(sender) = self.comm_channels.api_info_tx.take() {
                    if sender.send((api_id, self.cache.api_hash.clone())).is_ok() {
                        self.info_message = Some(String::from_str("API info sent"));
                    } else {
                        self.error_message = Some(
                            String::from_str("Unable to send API info. Is the user already authorized?"),
                        );
                    }
                }
            },
            None => {
                let mut message = String::from_str("Invalid API_ID: '");
                message.append(self.cache.api_id.as_str());
                message.append("'");
                self.info_message = Some(message);
            },
        }
    }

    /// Confirms the phone number typed in: a valid one is kept for sending,
    /// an invalid one sets the error shown.
    pub fn confirm_phone(&mut self)
        ensures
            parses_as_phone_number(old(self).cache.user_phone@) ==> (final(self).user_phone matches Some(p) && p@ == old(self).cache.user_phone@),
            !parses_as_phone_number(old(self).cache.user_phone@) ==> (final(self).error_message matches Some(m) && m@ == USER_PHONE_INPUT_ERROR@)
                && final(self).user_phone == old(self).user_phone,
    {
        match validate(self.cache.user_phone.as_str()) {
            Ok(()) => {
                self.user_phone = Some(self.cache.user_phone.clone());
            },
            Err(_) => {
                self.error_message = Some(String::from_str(USER_PHONE_INPUT_ERROR));
            },
        }
    }

    /// Sends the confirmed phone number, once: the sender is used up whether
    /// or not the worker was still there to take it.
    pub fn send_phone(&mut self)
        ensures
            old(self).user_phone is Some ==> final(self).comm_channels.user_phone_tx is None,
            old(self).user_phone is None ==> final(self).comm_channels.user_phone_tx
                == old(self).comm_channels.user_phone_tx,
    {
        if let Some(phone) = &self.user_phone {
            if let Some(sender) = self.comm_channels.user_phone_tx.take() {
                if sender.send(phone.clone()).is_ok() {
                    self.info_message = Some(
                        String::from_str("Phone number sent, awaiting response..."),
                    );
                }
            }
        }
    }

    /// Sends the code typed in, once, and clears the field.
    pub fn send_code(&mut self)
        ensures
            final(self).comm_channels.user_code_tx is None,
            old(self).comm_channels.user_code_tx is Some ==> final(self).cache.user_code@.len()
                == 0,
    {
        if let Some(sender) = self.comm_channels.user_code_tx.take() {
            if sender.send(self.cache.user_code.clone()).is_ok() {
                self.info_message = Some(String::from_str("Code sent, awaiting response..."));
            }
            self.cache.user_code = String::new();
        }
    }

    /// Sends the password typed in, once, and clears the field.
    pub fn send_password(&mut self)
        ensures
            final(self).comm_channels.pass_receive_tx is None,
            old(self).comm_channels.pass_receive_tx is Some ==> final(self).cache.user_pwd@.len()
                == 0,
    {
        if let Some(sender) = self.comm_channels.pass_receive_tx.take() {
            if sender.send(self.cache.user_pwd.clone()).is_ok() {
                self.info_message = Some(String::from_str("Password sent, awaiting response..."));
            }
            self.cache.user_pwd = String::new();
        }
    }

    /// The batch to look up: the lines typed in that are phone numbers, in
    /// order; the others are left out.
    pub fn phone_batch(&self) -> (r: Vec<String>)
        ensures
            views(r@) == valid_lines(lines(self.cache.phones_input@)),
    {
        let all = split_lines(self.cache.phones_input.as_str());
        let mut batch: Vec<String> = Vec::new();
        let mut i: usize = 0;
        while i < all.len()
            invariant
                i <= all.len(),
                views(batch@) == valid_lines(views(all@).take(i as int)),
            decreases all.len() - i,
        {
            proof {
                assert(views(all@).take(i + 1).drop_last() =~= views(all@).take(i as int));
                assert(views(all@).take(i + 1).last() == all@[i as int]@);
            }
            if validate(all[i].as_str()).is_ok() {
                let item = all[i].clone();
                proof {
                    assert(views(batch@.push(item)) =~= views(batch@).push(item@));
                }
                batch.push(item);
            }
            i = i + 1;
        }
        assert(views(all@).take(all.len() as int) =~= views(all@));
        batch
    }
}

} // verus!
