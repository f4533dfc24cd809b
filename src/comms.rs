use vstd::prelude::*;

use crate::auth::ConnectionStatus;
use crate::user::UserData;

verus! {

/// How many phone batches, and how many result sets, may wait in their
/// queues before a sender blocks.
pub const CHANNEL_BUFFER_SIZE: usize = 5;

/// Declares `tokio::sync::oneshot::Sender`: the sending end of a single-use channel.
#[verifier::external_type_specification]
#[verifier::external_body]
#[verifier::reject_recursive_types(T)]
pub struct ExOneshotSender<T>(tokio::sync::oneshot::Sender<T>);

/// Declares `tokio::sync::oneshot::Receiver`: the receiving end of a single-use channel.
#[verifier::external_type_specification]
#[verifier::external_body]
#[verifier::reject_recursive_types(T)]
pub struct ExOneshotReceiver<T>(tokio::sync::oneshot::Receiver<T>);

/// Declares `tokio::sync::mpsc::Sender`: a sending end of a bounded queue.
#[verifier::external_type_specification]
#[verifier::external_body]
#[verifier::reject_recursive_types(T)]
pub struct ExMpscSender<T>(tokio::sync::mpsc::Sender<T>);

/// Declares `tokio::sync::mpsc::Receiver`: the receiving end of a bounded queue.
#[verifier::external_type_specification]
#[verifier::external_body]
#[verifier::reject_recursive_types(T)]
pub struct ExMpscReceiver<T>(tokio::sync::mpsc::Receiver<T>);

/// Declares `tokio::sync::watch::Sender`: the writing end of a latest-value cell.
#[verifier::external_type_specification]
#[verifier::external_body]
#[verifier::reject_recursive_types(T)]
pub struct ExWatchSender<T>(tokio::sync::watch::Sender<T>);

/// Declares `tokio::sync::watch::Receiver`: a reading end of a latest-value cell.
#[verifier::external_type_specification]
#[verifier::external_body]
#[verifier::reject_recursive_types(T)]
pub struct ExWatchReceiver<T>(tokio::sync::watch::Receiver<T>);

/// Declares `tokio::sync::oneshot::error::RecvError`, which a single-use receiver yields.
#[verifier::external_type_specification]
#[verifier::external_body]
pub struct ExOneshotRecvError(tokio::sync::oneshot::error::RecvError);

/// Declares `anyhow::Error`, the worker's exit report.
#[verifier::external_type_specification]
#[verifier::external_body]
pub struct ExAnyhowError(anyhow::Error);

/// Relies on `tokio::sync::oneshot::channel`: a connected single-use pair.
pub assume_specification<T>[ tokio::sync::oneshot::channel::<T> ]() -> (
    tokio::sync::oneshot::Sender<T>,
    tokio::sync::oneshot::Receiver<T>,
);

/// Relies on `tokio::sync::mpsc::channel`: a bounded queue; it panics on a
/// zero capacity and on one above its semaphore's `usize::MAX >> 3` permits
/// (`usize::MAX / 8`).
pub assume_specification<T>[ tokio::sync::mpsc::channel::<T> ](buffer: usize) -> (
    tokio::sync::mpsc::Sender<T>,
    tokio::sync::mpsc::Receiver<T>,
)
    requires
        0 < buffer <= usize::MAX / 8,
;

/// Relies on `tokio::sync::watch::channel`: a latest-value cell seeded with
/// `init`.
pub assume_specification<T>[ tokio::sync::watch::channel::<T> ](init: T) -> (
    tokio::sync::watch::Sender<T>,
    tokio::sync::watch::Receiver<T>,
);

/// Relies on `tokio::sync::oneshot::Sender::send`: when the receiver is gone
/// the value comes back unchanged.
pub assume_specification<T>[ tokio::sync::oneshot::Sender::<T>::send ](
    sender: tokio::sync::oneshot::Sender<T>,
    t: T,
) -> (r: Result<(), T>)
    ensures
        r is Err ==> r->Err_0 == t,
;

/// The UI's ends of the channel set. A single-use sender is `None` once used.
pub struct CommChannelsApp {
    pub api_info_tx: Option<tokio::sync::oneshot::Sender<(i32, String)>>,
    pub user_phone_tx: Option<tokio::sync::oneshot::Sender<String>>,
    pub user_code_tx: Option<tokio::sync::oneshot::Sender<String>>,
    pub input_phones_tx: tokio::sync::mpsc::Sender<Vec<String>>,
    pub user_data_rx: tokio::sync::mpsc::Receiver<Vec<UserData>>,
    pub pass_receive_tx: Option<tokio::sync::oneshot::Sender<String>>,
    pub connection_status_rx: tokio::sync::watch::Receiver<ConnectionStatus>,
    pub client_exit_error_rx: tokio::sync::oneshot::Receiver<anyhow::Error>,
}

impl CommChannelsApp {
    /// The UI's ends, every single-use sender still unused.
    pub fn new(
        api_info_tx: tokio::sync::oneshot::Sender<(i32, String)>,
        user_phone_tx: tokio::sync::oneshot::Sender<String>,
        user_code_tx: tokio::sync::oneshot::Sender<String>,
        input_phones_tx: tokio::sync::mpsc::Sender<Vec<String>>,
        user_data_rx: tokio::sync::mpsc::Receiver<Vec<UserData>>,
        pass_receive_tx: tokio::sync::oneshot::Sender<String>,
        connection_status_rx: tokio::sync::watch::Receiver<ConnectionStatus>,
        client_exit_error_rx: tokio::sync::oneshot::Receiver<anyhow::Error>,
    ) -> (r: CommChannelsApp)
        ensures
            r.api_info_tx == Some(api_info_tx),
            r.user_phone_tx == Some(user_phone_tx),
            r.user_code_tx == Some(user_code_tx),
            r.pass_receive_tx == Some(pass_receive_tx),
            r.input_phones_tx == input_phones_tx,
            r.user_data_rx == user_data_rx,
            r.connection_status_rx == connection_status_rx,
            r.client_exit_error_rx == client_exit_error_rx,
    {
        CommChannelsApp {
            api_info_tx: Some(api_info_tx),
            user_phone_tx: Some(user_phone_tx),
            user_code_tx: Some(user_code_tx),
            input_phones_tx,
            user_data_rx,
            pass_receive_tx: Some(pass_receive_tx),
            connection_status_rx,
            client_exit_error_rx,
        }
    }
}

/// The worker's ends of the channel set.
pub struct CommChannelsClient {
    pub api_info_rx: tokio::sync::oneshot::Receiver<(i32, String)>,
    pub user_phone_rx: tokio::sync::oneshot::Receiver<String>,
    pub code_receiver_rx: tokio::sync::oneshot::Receiver<String>,
    pub pass_recieve_rx: tokio::sync::oneshot::Receiver<String>,
    pub input_phones_rx: tokio::sync::mpsc::Receiver<Vec<String>>,
    pub user_data_tx: tokio::sync::mpsc::Sender<Vec<UserData>>,
    pub connection_status_tx: tokio::sync::watch::Sender<ConnectionStatus>,
}

impl CommChannelsClient {
    /// The worker's ends.
    pub fn new(
        api_info_rx: tokio::sync::oneshot::Receiver<(i32, String)>,
        user_phone_rx: tokio::sync::oneshot::Receiver<String>,
        code_receiver_rx: tokio::sync::oneshot::Receiver<String>,
        input_phones_rx: tokio::sync::mpsc::Receiver<Vec<String>>,
        user_data_tx: tokio::sync::mpsc::Sender<Vec<UserData>>,
        pass_recieve_rx: tokio::sync::oneshot::Receiver<String>,
        connection_status_tx: tokio::sync::watch::Sender<ConnectionStatus>,
    ) -> (r: CommChannelsClient)
        ensures
            r.api_info_rx == api_info_rx,
            r.user_phone_rx == user_phone_rx,
            r.code_receiver_rx == code_receiver_rx,
            r.pass_recieve_rx == pass_recieve_rx,
            r.input_phones_rx == input_phones_rx,
            r.user_data_tx == user_data_tx,
            r.connection_status_tx == connection_status_tx,
    {
        CommChannelsClient {
            api_info_rx,
            user_phone_rx,
            code_receiver_rx,
            pass_recieve_rx,
            input_phones_rx,
            user_data_tx,
            connection_status_tx,
        }
    }
}

/// Builds the whole channel set at once, so that no half is ever paired with
/// the wrong other half: the UI's ends, the worker's ends, and the sender of
/// the worker's exit report. The UI starts with every single-use sender
/// unused.
pub fn create_comms_channels() -> (r: (
    CommChannelsApp,
    CommChannelsClient,
    tokio::sync::oneshot::Sender<anyhow::Error>,
))
    ensures
        r.0.api_info_tx is Some,
        r.0.user_phone_tx is Some,
        r.0.user_code_tx is Some,
        r.0.pass_receive_tx is Some,
{
    let (api_info_tx, api_info_rx) = tokio::sync::oneshot::channel();
    let (user_phone_tx, user_phone_rx) = tokio::sync::oneshot::channel();
    let (input_phones_tx, input_phones_rx) = tokio::sync::mpsc::channel(CHANNEL_BUFFER_SIZE);
    let (user_data_tx, user_data_rx) = tokio::sync::mpsc::channel(CHANNEL_BUFFER_SIZE);
    let (code_receive_tx, code_receive_rx) = tokio::sync::oneshot::channel();
    let (pass_receive_tx, pass_receive_rx) = tokio::sync::oneshot::channel();
    let (connection_status_tx, connection_status_rx) = tokio::sync::watch::channel(
        ConnectionStatus::RequiresApiInfo,
    );
    let (client_exit_error_tx, client_exit_error_rx) = tokio::sync::oneshot::channel();
    let app = CommChannelsApp::new(
        api_info_tx,
        user_phone_tx,
        code_receive_tx,
        input_phones_tx,
        user_data_rx,
        pass_receive_tx,
        connection_status_rx,
        client_exit_error_rx,
    );
    let client = CommChannelsClient::new(
        api_info_rx,
        user_phone_rx,
        code_receive_rx,
        input_phones_rx,
        user_data_tx,
        pass_receive_rx,
        connection_status_tx,
    );
    (app, client, client_exit_error_tx)
}

} // verus!
