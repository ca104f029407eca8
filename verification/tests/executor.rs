use ftdi_mpsse::executor::after_send;
use ftdi_mpsse::{MpsseCmdBuilder, MpsseCmdExecutor, MpsseSettings, XferStep};
use std::time::Duration;

struct Loopback {
    settings: Option<MpsseSettings>,
    sent: Vec<u8>,
    calls: Vec<&'static str>,
    fail_send: bool,
    fail_recv: bool,
}

impl Loopback {
    fn new(fail_send: bool, fail_recv: bool) -> Loopback {
        Loopback { settings: None, sent: Vec::new(), calls: Vec::new(), fail_send, fail_recv }
    }
}

impl MpsseCmdExecutor for Loopback {
    type Error = &'static str;

    fn init(&mut self, settings: &MpsseSettings) -> Result<(), Self::Error> {
        self.calls.push("init");
        self.settings = Some(*settings);
        Ok(())
    }

    fn send(&mut self, data: &[u8]) -> Result<(), Self::Error> {
        self.calls.push("send");
        if self.fail_send {
            return Err("send failed");
        }
        self.sent.extend_from_slice(data);
        Ok(())
    }

    fn recv(&mut self, data: &mut [u8]) -> Result<(), Self::Error> {
        self.calls.push("recv");
        if self.fail_recv {
            return Err("recv failed");
        }
        for byte in data.iter_mut() {
            *byte = 0x5A;
        }
        Ok(())
    }
}

#[test]
fn default_settings() {
    let settings = MpsseSettings::default();
    assert!(settings.reset);
    assert_eq!(settings.in_transfer_size, 4096);
    assert_eq!(settings.read_timeout, Duration::from_secs(1));
    assert_eq!(settings.write_timeout, Duration::from_secs(1));
    assert_eq!(settings.latency_timer, Duration::from_millis(16));
    assert_eq!(settings.mask, 0x00);
    assert_eq!(settings.clock_frequency, None);
}

#[test]
fn settings_compare_field_by_field() {
    let settings = MpsseSettings::default();
    let mut other = settings;
    assert_eq!(settings, other);
    other.clock_frequency = Some(100_000);
    assert_ne!(settings, other);
    assert_eq!(other.latency_timer.as_millis(), 16);
    assert_eq!(other.read_timeout.as_millis(), 1000);
}

#[test]
fn after_send_decides_the_next_step() {
    assert!(matches!(after_send::<u8>(Ok(())), XferStep::Receive));
    assert!(matches!(after_send(Err(7u8)), XferStep::Fail(7)));
}

#[test]
fn xfer_sends_then_receives() {
    let builder = MpsseCmdBuilder::new().gpio_lower().gpio_upper().send_immediate();
    let mut rx = vec![0u8; builder.read_length()];
    let mut executor = Loopback::new(false, false);
    assert_eq!(executor.init(&MpsseSettings::default()), Ok(()));
    assert_eq!(executor.xfer(builder.as_slice(), &mut rx), Ok(()));
    assert_eq!(executor.calls, vec!["init", "send", "recv"]);
    assert_eq!(executor.sent, vec![0x81, 0x83, 0x87]);
    assert_eq!(rx, vec![0x5A, 0x5A]);
    assert_eq!(executor.settings, Some(MpsseSettings::default()));
}

#[test]
fn xfer_stops_at_a_failed_send() {
    let mut rx = [0u8; 2];
    let mut executor = Loopback::new(true, false);
    assert_eq!(executor.xfer(&[0x81, 0x83], &mut rx), Err("send failed"));
    assert_eq!(executor.calls, vec!["send"]);
    assert_eq!(rx, [0, 0]);
}

#[test]
fn xfer_reports_a_failed_receive() {
    let mut rx = [0u8; 2];
    let mut executor = Loopback::new(false, true);
    assert_eq!(executor.xfer(&[0x81, 0x83], &mut rx), Err("recv failed"));
    assert_eq!(executor.calls, vec!["send", "recv"]);
    assert_eq!(executor.sent, vec![0x81, 0x83]);
}
