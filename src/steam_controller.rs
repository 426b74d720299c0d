use vstd::prelude::*;

verus! {

/// USB vendor identity of the controller family.
pub const VALVE_VENDOR_ID: u16 = 0x28de;

/// Product identity of the wireless dongle.
pub const SC_WIRELESS_PID: u16 = 0x1142;

/// Product identity of the wired connection.
pub const SC_WIRED_PID: u16 = 0x1102;

/// Settling delay between the two raw-mode payloads, in milliseconds.
pub const SETTLE_MS: u64 = 20;

/// Read timeout of a non-blocking poll, in milliseconds.
pub const POLL_TIMEOUT_MS: i32 = 10;

/// Size of the buffer that one read fills.
pub const READ_BUF_LEN: usize = 64;

/// Feature report that turns mouse emulation off.
pub open spec fn disable_mouse_bytes() -> Seq<u8> {
    seq![0x81u8, 0x00u8]
}

/// Feature report that turns mouse emulation back on.
pub open spec fn enable_mouse_bytes() -> Seq<u8> {
    seq![0x81u8, 0x01u8]
}

/// Feature report that configures the full-resolution input stream.
pub open spec fn enable_input_bytes() -> Seq<u8> {
    seq![
        0x87u8, 0x15u8, 0x32u8, 0x84u8, 0x03u8, 0x18u8, 0x00u8, 0x00u8,
        0x31u8, 0x02u8, 0x00u8, 0x08u8, 0x07u8, 0x00u8, 0x07u8, 0x07u8,
        0x00u8, 0x30u8, 0x18u8, 0x00u8, 0x2fu8, 0x01u8, 0x00u8, 0x00u8,
        0x00u8, 0x00u8, 0x00u8, 0x00u8, 0x00u8, 0x00u8, 0x00u8, 0x00u8,
        0x00u8, 0x00u8, 0x00u8, 0x00u8, 0x00u8, 0x00u8, 0x00u8, 0x00u8,
        0x00u8, 0x00u8, 0x00u8, 0x00u8, 0x00u8, 0x00u8, 0x00u8, 0x00u8,
        0x00u8, 0x00u8, 0x00u8, 0x00u8, 0x00u8, 0x00u8, 0x00u8, 0x00u8,
        0x00u8, 0x00u8, 0x00u8, 0x00u8, 0x00u8, 0x00u8, 0x00u8, 0x00u8,
    ]
}

/// The payload that turns mouse emulation off.
pub fn disable_mouse_payload() -> (r: Vec<u8>)
    ensures
        r@ == disable_mouse_bytes(),
{
    let r: Vec<u8> = vec![0x81, 0x00];
    assert(r@ =~= disable_mouse_bytes());
    r
}

/// The payload that turns mouse emulation back on.
pub fn enable_mouse_payload() -> (r: Vec<u8>)
    ensures
        r@ == enable_mouse_bytes(),
{
    let r: Vec<u8> = vec![0x81, 0x01];
    assert(r@ =~= enable_mouse_bytes());
    r
}

/// The 64-byte payload that enables the full input stream.
pub fn enable_input_payload() -> (r: Vec<u8>)
    ensures
        r@ == enable_input_bytes(),
        r@.len() == 64,
{
    let r: Vec<u8> = vec![
        0x87, 0x15, 0x32, 0x84, 0x03, 0x18, 0x00, 0x00,
        0x31, 0x02, 0x00, 0x08, 0x07, 0x00, 0x07, 0x07,
        0x00, 0x30, 0x18, 0x00, 0x2f, 0x01, 0x00, 0x00,
        0x00, 0x00, 0x00, 0x00, 0x00, 0x00, 0x00, 0x00,
        0x00, 0x00, 0x00, 0x00, 0x00, 0x00, 0x00, 0x00,
        0x00, 0x00, 0x00, 0x00, 0x00, 0x00, 0x00, 0x00,
        0x00, 0x00, 0x00, 0x00, 0x00, 0x00, 0x00, 0x00,
        0x00, 0x00, 0x00, 0x00, 0x00, 0x00, 0x00, 0x00,
    ];
    assert(r@ =~= enable_input_bytes());
    r
}

/// What enumeration reports of one HID interface.
#[derive(Debug, Clone)]
pub struct HidDeviceEntry {
    pub vendor_id: u16,
    pub product_id: u16,
    pub product_string: Option<String>,
    pub serial_number: Option<String>,
    pub interface_number: i32,
    pub usage_page: u16,
    pub usage: u16,
}

/// Description of a found controller, for display.
#[derive(Debug, Clone)]
pub struct SteamControllerInfo {
    pub connected: bool,
    pub connection_type: String,
    pub product_name: String,
    pub serial: String,
}

/// Whether the interface belongs to a controller of the family, wired or wireless.
pub open spec fn is_controller(e: HidDeviceEntry) -> bool {
    e.vendor_id == VALVE_VENDOR_ID && (e.product_id == SC_WIRELESS_PID || e.product_id
        == SC_WIRED_PID)
}

/// Whether `i` is the position of the first controller in `s`.
pub open spec fn is_first_controller(s: Seq<HidDeviceEntry>, i: int) -> bool {
    &&& 0 <= i < s.len()
    &&& is_controller(s[i])
    &&& forall|j: int| 0 <= j < i ==> !is_controller(#[trigger] s[j])
}

/// Whether `s` holds no controller.
pub open spec fn no_controller(s: Seq<HidDeviceEntry>) -> bool {
    forall|j: int| 0 <= j < s.len() ==> !is_controller(#[trigger] s[j])
}

/// Label of the transport that a product identity stands for.
pub open spec fn connection_label(product_id: u16) -> Seq<char> {
    if product_id == SC_WIRELESS_PID {
        "Wireless"@
    } else {
        "Wired"@
    }
}

/// The text held, or `fallback` where there is none.
pub open spec fn text_or(o: Option<String>, fallback: Seq<char>) -> Seq<char> {
    match o {
        Some(t) => t@,
        None => fallback,
    }
}

/// Whether `info` describes the controller interface `e`.
pub open spec fn describes(info: SteamControllerInfo, e: HidDeviceEntry) -> bool {
    &&& info.connected
    &&& info.connection_type@ == connection_label(e.product_id)
    &&& info.product_name@ == text_or(e.product_string, "Steam Controller"@)
    &&& info.serial@ == text_or(e.serial_number, "Unknown"@)
}

/// The text held, or a copy of `fallback`.
pub fn text_or_else(o: &Option<String>, fallback: &str) -> (r: String)
    ensures
        r@ == text_or(*o, fallback@),
{
    match o {
        Some(t) => t.clone(),
        None => fallback.to_owned(),
    }
}

/// Position of the first controller among the enumerated interfaces.
pub fn first_controller(devices: &Vec<HidDeviceEntry>) -> (r: Option<usize>)
    ensures
        r is None <==> no_controller(devices@),
        r matches Some(i) ==> is_first_controller(devices@, i as int),
{
    let mut i: usize = 0;
    while i < devices.len()
        invariant
            i <= devices@.len(),
            forall|j: int| 0 <= j < i ==> !is_controller(#[trigger] devices@[j]),
        decreases devices@.len() - i,
    {
        let e = &devices[i];
        if e.vendor_id == VALVE_VENDOR_ID && (e.product_id == SC_WIRELESS_PID || e.product_id
            == SC_WIRED_PID) {
            return Some(i);
        }
        i = i + 1;
    }
    None
}

/// The description of a controller interface.
pub fn controller_info(e: &HidDeviceEntry) -> (r: SteamControllerInfo)
    requires
        is_controller(*e),
    ensures
        describes(r, *e),
{
    let connection_type = if e.product_id == SC_WIRELESS_PID {
        "Wireless".to_owned()
    } else {
        "Wired".to_owned()
    };
    SteamControllerInfo {
        connected: true,
        connection_type,
        product_name: text_or_else(&e.product_string, "Steam Controller"),
        serial: text_or_else(&e.serial_number, "Unknown"),
    }
}

/// Finds the first controller among the enumerated interfaces and describes
/// it, without opening anything; none when no controller is present.
pub fn detect_in(devices: &Vec<HidDeviceEntry>) -> (r: Option<SteamControllerInfo>)
    ensures
        r is None <==> no_controller(devices@),
        r matches Some(info) ==> exists|i: int|
            is_first_controller(devices@, i) && describes(info, #[trigger] devices@[i]),
{
    match first_controller(devices) {
        Some(i) => Some(controller_info(&devices[i])),
        None => None,
    }
}

/// Why a connect did not complete.
#[derive(Debug, Clone)]
pub enum ConnectError {
    /// No interface of a known controller is present.
    NotFound,
    /// The transport refused to open the device; carries its message.
    OpenFailed(String),
    /// The device rejected a mode payload; carries the transport's message.
    FeatureReportRejected(String),
}

/// Why a read produced no report.
#[derive(Debug, Clone)]
pub enum ReadError {
    /// No device handle is held.
    NotConnected,
    /// A non-blocking poll found nothing within its short timeout.
    NoData,
    /// A blocking read found nothing within the caller's timeout.
    Timeout,
    /// The transport failed; carries its message.
    TransportError(String),
}

/// What a timed read on the transport came back with.
#[derive(Debug, Clone)]
pub enum ReadOutcome {
    /// This many bytes were written to the buffer.
    Bytes(usize),
    /// The transport failed with this message.
    Fault(String),
}

/// The buffer that one read fills.
pub fn read_buffer() -> (r: Vec<u8>)
    ensures
        r@ == Seq::new(READ_BUF_LEN as nat, |i: int| 0u8),
{
    let mut r: Vec<u8> = Vec::new();
    let mut i: usize = 0;
    while i < READ_BUF_LEN
        invariant
            i <= READ_BUF_LEN,
            r@ == Seq::new(i as nat, |k: int| 0u8),
        decreases READ_BUF_LEN - i,
    {
        r.push(0u8);
        i = i + 1;
        assert(r@ =~= Seq::new(i as nat, |k: int| 0u8));
    }
    r
}

/// Turns the outcome of a read into `buf`'s first bytes or an error.
///
/// `blocking` tells a blocking read, whose empty result is a `Timeout`, from
/// a poll, whose empty result is `NoData`.
pub fn finish_read(buf: Vec<u8>, outcome: ReadOutcome, blocking: bool) -> (r: Result<
    Vec<u8>,
    ReadError,
>)
    ensures
        match outcome {
            ReadOutcome::Fault(m) => r == Err::<Vec<u8>, ReadError>(ReadError::TransportError(m)),
            ReadOutcome::Bytes(n) => if n == 0 {
                r == Err::<Vec<u8>, ReadError>(
                    if blocking {
                        ReadError::Timeout
                    } else {
                        ReadError::NoData
                    },
                )
            } else {
                r matches Ok(v) && v@ == buf@.take(
                    if n <= buf@.len() {
                        n as int
                    } else {
                        buf@.len() as int
                    },
                )
            },
        },
{
    match outcome {
        ReadOutcome::Fault(m) => Err(ReadError::TransportError(m)),
        ReadOutcome::Bytes(n) => {
            if n == 0 {
                if blocking {
                    Err(ReadError::Timeout)
                } else {
                    Err(ReadError::NoData)
                }
            } else {
                let mut buf = buf;
                buf.truncate(n);
                proof {
                    if n > buf@.len() {
                        assert(buf@ =~= buf@.take(buf@.len() as int));
                    }
                }
                Ok(buf)
            }
        },
    }
}

/// Lifecycle of the single controller slot.
#[derive(Debug, Clone)]
pub enum SessionPhase {
    /// No handle is held.
    Idle,
    /// The device is being opened.
    Opening(SteamControllerInfo),
    /// The handle is held; the mouse-emulation-off payload was sent.
    DisablingMouse(SteamControllerInfo),
    /// Waiting out the delay between the two raw-mode payloads.
    Settling(SteamControllerInfo),
    /// The full-input payload was sent.
    EnablingInput(SteamControllerInfo),
    /// In raw mode: reports can be read.
    Connected(SteamControllerInfo),
    /// The mouse-emulation-on payload was sent before the handle is released.
    Restoring,
}

/// What happened outside, handed to the session.
#[derive(Debug)]
pub enum SessionEvent {
    /// The caller asks to connect; carries a fresh enumeration.
    ConnectRequested(Vec<HidDeviceEntry>),
    /// The open asked for has finished.
    OpenDone(Result<(), String>),
    /// The feature report asked for has been sent, or refused.
    FeatureReportDone(Result<(), String>),
    /// The delay asked for has elapsed.
    Settled,
    /// The caller asks to disconnect.
    DisconnectRequested,
}

/// What the session asks the caller to do next.
#[derive(Debug, Clone)]
pub enum SessionAction {
    /// Release any handle held, then open this device exclusively.
    Open { vendor_id: u16, product_id: u16 },
    /// Send this feature report on the held handle.
    SendFeatureReport(Vec<u8>),
    /// Sleep this many milliseconds.
    Wait(u64),
    /// Release the handle; the disconnect is complete.
    Release,
    /// The connect succeeded: report this description.
    Established(SteamControllerInfo),
    /// The connect failed: release any handle held and report this error.
    Failed(ConnectError),
    /// Nothing to do.
    Nothing,
}

/// Whether a device handle is held in phase `p`.
pub open spec fn holds_handle(p: SessionPhase) -> bool {
    match p {
        SessionPhase::Idle | SessionPhase::Opening(_) => false,
        _ => true,
    }
}

/// Whether `a` sends a feature report with the bytes `b`.
pub open spec fn sends(a: SessionAction, b: Seq<u8>) -> bool {
    a matches SessionAction::SendFeatureReport(v) && v@ == b
}

/// Whether the pair (`p2`, `a`) is how phase `p` answers `ev`.
pub open spec fn next(p: SessionPhase, ev: SessionEvent, p2: SessionPhase, a: SessionAction) -> bool {
    match ev {
        SessionEvent::ConnectRequested(devices) => {
            if p is Idle || p is Connected {
                if no_controller(devices@) {
                    p2 == p && a == SessionAction::Failed(ConnectError::NotFound)
                } else {
                    exists|i: int|
                        #![trigger devices@[i]]
                        {
                            &&& is_first_controller(devices@, i)
                            &&& a == (SessionAction::Open {
                                vendor_id: VALVE_VENDOR_ID,
                                product_id: devices@[i].product_id,
                            })
                            &&& (p2 matches SessionPhase::Opening(info) && describes(
                                info,
                                devices@[i],
                            ))
                        }
                }
            } else {
                p2 == p && a is Nothing
            }
        },
        SessionEvent::OpenDone(res) => match p {
            SessionPhase::Opening(info) => match res {
                Ok(_) => p2 == SessionPhase::DisablingMouse(info) && sends(a, disable_mouse_bytes()),
                Err(m) => p2 is Idle && a == SessionAction::Failed(ConnectError::OpenFailed(m)),
            },
            _ => p2 == p && a is Nothing,
        },
        SessionEvent::FeatureReportDone(res) => match p {
            SessionPhase::DisablingMouse(info) => match res {
                Ok(_) => p2 == SessionPhase::Settling(info) && a == SessionAction::Wait(SETTLE_MS),
                Err(m) => p2 is Idle && a == SessionAction::Failed(
                    ConnectError::FeatureReportRejected(m),
                ),
            },
            SessionPhase::EnablingInput(info) => match res {
                Ok(_) => p2 == SessionPhase::Connected(info) && a == SessionAction::Established(info),
                Err(m) => p2 is Idle && a == SessionAction::Failed(
                    ConnectError::FeatureReportRejected(m),
                ),
            },
            SessionPhase::Restoring => p2 is Idle && a is Release,
            _ => p2 == p && a is Nothing,
        },
        SessionEvent::Settled => match p {
            SessionPhase::Settling(info) => p2 == SessionPhase::EnablingInput(info) && sends(
                a,
                enable_input_bytes(),
            ),
            _ => p2 == p && a is Nothing,
        },
        SessionEvent::DisconnectRequested => match p {
            SessionPhase::Idle => p2 is Idle && a is Nothing,
            SessionPhase::Opening(_) | SessionPhase::Restoring => p2 is Idle && a is Release,
            _ => p2 is Restoring && sends(a, enable_mouse_bytes()),
        },
    }
}

/// A copy of a controller description.
pub fn copy_info(info: &SteamControllerInfo) -> (r: SteamControllerInfo)
    ensures
        r == *info,
{
    SteamControllerInfo {
        connected: info.connected,
        connection_type: info.connection_type.clone(),
        product_name: info.product_name.clone(),
        serial: info.serial.clone(),
    }
}

/// The connect and disconnect sequencing of the one controller slot.
///
/// The caller performs each action that `step` returns and hands back what
/// came of it as the next event.
pub struct ControllerSession {
    phase: SessionPhase,
}

impl View for ControllerSession {
    type V = SessionPhase;

    closed spec fn view(&self) -> SessionPhase {
        self.phase
    }
}

impl ControllerSession {
    /// A session that holds no handle.
    pub fn new() -> (r: Self)
        ensures
            r@ is Idle,
    {
        ControllerSession { phase: SessionPhase::Idle }
    }

    /// The current phase.
    pub fn phase(&self) -> (r: &SessionPhase)
        ensures
            *r == self@,
    {
        &self.phase
    }

    /// Whether a device handle is currently held.
    pub fn is_connected(&self) -> (r: bool)
        ensures
            r == holds_handle(self@),
    {
        match self.phase {
            SessionPhase::Idle | SessionPhase::Opening(_) => false,
            _ => true,
        }
    }

    /// The timeout of the read to make: the caller's for a blocking read, the
    /// short poll timeout otherwise; `NotConnected` unless the session is
    /// connected in raw mode.
    pub fn read_timeout(&self, blocking_timeout_ms: Option<i32>) -> (r: Result<i32, ReadError>)
        ensures
            !(self@ is Connected) ==> r == Err::<i32, ReadError>(ReadError::NotConnected),
            self@ is Connected ==> r == Ok::<i32, ReadError>(
                match blocking_timeout_ms {
                    Some(t) => t,
                    None => POLL_TIMEOUT_MS,
                },
            ),
    {
        match self.phase {
            SessionPhase::Connected(_) => match blocking_timeout_ms {
                Some(t) => Ok(t),
                None => Ok(POLL_TIMEOUT_MS),
            },
            _ => Err(ReadError::NotConnected),
        }
    }

    /// Advances the session by one event and says what to do next.
    pub fn step(&mut self, event: SessionEvent) -> (r: SessionAction)
        ensures
            next(old(self)@, event, final(self)@, r),
    {
        let mut p = SessionPhase::Idle;
        core::mem::swap(&mut self.phase, &mut p);
        let ghost ev = event;
        let (p2, a) = match event {
            SessionEvent::ConnectRequested(devices) => {
                if matches!(p, SessionPhase::Idle | SessionPhase::Connected(_)) {
                    match first_controller(&devices) {
                        None => (p, SessionAction::Failed(ConnectError::NotFound)),
                        Some(i) => {
                            let info = controller_info(&devices[i]);
                            (
                                SessionPhase::Opening(info),
                                SessionAction::Open {
                                    vendor_id: VALVE_VENDOR_ID,
                                    product_id: devices[i].product_id,
                                },
                            )
                        },
                    }
                } else {
                    (p, SessionAction::Nothing)
                }
            },
            SessionEvent::OpenDone(res) => match p {
                SessionPhase::Opening(info) => match res {
                    Ok(_) => (SessionPhase::DisablingMouse(info), SessionAction::SendFeatureReport(
                        disable_mouse_payload(),
                    )),
                    Err(m) => (SessionPhase::Idle, SessionAction::Failed(
                        ConnectError::OpenFailed(m),
                    )),
                },
                _ => (p, SessionAction::Nothing),
            },
            SessionEvent::FeatureReportDone(res) => match p {
                SessionPhase::DisablingMouse(info) => match res {
                    Ok(_) => (SessionPhase::Settling(info), SessionAction::Wait(SETTLE_MS)),
                    Err(m) => (SessionPhase::Idle, SessionAction::Failed(
                        ConnectError::FeatureReportRejected(m),
                    )),
                },
                SessionPhase::EnablingInput(info) => match res {
                    Ok(_) => {
                        let shown = copy_info(&info);
                        (SessionPhase::Connected(info), SessionAction::Established(shown))
                    },
                    Err(m) => (SessionPhase::Idle, SessionAction::Failed(
                        ConnectError::FeatureReportRejected(m),
                    )),
                },
                SessionPhase::Restoring => (SessionPhase::Idle, SessionAction::Release),
                _ => (p, SessionAction::Nothing),
            },
            SessionEvent::Settled => match p {
                SessionPhase::Settling(info) => (
                    SessionPhase::EnablingInput(info),
                    SessionAction::SendFeatureReport(enable_input_payload()),
                ),
                _ => (p, SessionAction::Nothing),
            },
            SessionEvent::DisconnectRequested => match p {
                SessionPhase::Idle => (SessionPhase::Idle, SessionAction::Nothing),
                SessionPhase::Opening(_) | SessionPhase::Restoring => (
                    SessionPhase::Idle,
                    SessionAction::Release,
                ),
                _ => (SessionPhase::Restoring, SessionAction::SendFeatureReport(
                    enable_mouse_payload(),
                )),
            },
        };
        self.phase = p2;
        a
    }
}

/// A connect on an idle session with no controller present fails with
/// `NotFound`, and no handle is held before or after.
pub proof fn lemma_connect_without_controller(
    p: SessionPhase,
    devices: Vec<HidDeviceEntry>,
    p2: SessionPhase,
    a: SessionAction,
)
    requires
        p is Idle,
        no_controller(devices@),
        next(p, SessionEvent::ConnectRequested(devices), p2, a),
    ensures
        a == SessionAction::Failed(ConnectError::NotFound),
        !holds_handle(p),
        !holds_handle(p2),
{
}

/// Disconnecting an idle session twice in a row does nothing either time.
pub proof fn lemma_disconnect_twice_is_noop(
    p: SessionPhase,
    p2: SessionPhase,
    a2: SessionAction,
    p3: SessionPhase,
    a3: SessionAction,
)
    requires
        p is Idle,
        next(p, SessionEvent::DisconnectRequested, p2, a2),
        next(p2, SessionEvent::DisconnectRequested, p3, a3),
    ensures
        p2 is Idle && a2 is Nothing,
        p3 is Idle && a3 is Nothing,
{
}

/// Disconnecting a session that holds a handle first restores mouse emulation,
/// and then releases the handle whether or not the device took the payload.
pub proof fn lemma_disconnect_always_releases(
    p: SessionPhase,
    p2: SessionPhase,
    a2: SessionAction,
    res: Result<(), String>,
    p3: SessionPhase,
    a3: SessionAction,
)
    requires
        holds_handle(p),
        !(p is Restoring),
        next(p, SessionEvent::DisconnectRequested, p2, a2),
        next(p2, SessionEvent::FeatureReportDone(res), p3, a3),
    ensures
        sends(a2, enable_mouse_bytes()),
        p3 is Idle && a3 is Release,
        !holds_handle(p3),
{
}

/// The full-input payload is sent only once the settling delay after the
/// mouse-emulation-off payload has elapsed.
pub proof fn lemma_full_input_follows_settling(
    p: SessionPhase,
    ev: SessionEvent,
    p2: SessionPhase,
    a: SessionAction,
)
    requires
        next(p, ev, p2, a),
        sends(a, enable_input_bytes()),
    ensures
        p is Settling,
        ev is Settled,
{
    assert(disable_mouse_bytes().len() == 2);
    assert(enable_mouse_bytes().len() == 2);
    assert(enable_input_bytes().len() == 64);
}

/// The settling delay is entered only when the device accepted the
/// mouse-emulation-off payload.
pub proof fn lemma_settling_follows_accepted_payload(
    p: SessionPhase,
    ev: SessionEvent,
    p2: SessionPhase,
    a: SessionAction,
)
    requires
        next(p, ev, p2, a),
        p2 is Settling,
        !(p is Settling),
    ensures
        p is DisablingMouse,
        ev matches SessionEvent::FeatureReportDone(Ok(_)),
        a == SessionAction::Wait(SETTLE_MS),
{
}

/// A connect that fails once the device was opened leaves no handle held.
pub proof fn lemma_failed_connect_holds_nothing(
    p: SessionPhase,
    ev: SessionEvent,
    p2: SessionPhase,
    a: SessionAction,
)
    requires
        next(p, ev, p2, a),
        a is Failed,
        !(ev is ConnectRequested),
    ensures
        p2 is Idle,
{
}

} // verus!
