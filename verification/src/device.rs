//! The device facade and its transport abstraction.
//!
//! A [`Device`] owns one [`Transport`]: the narrow set of synchronous
//! platform HID primitives the facade needs. Opening a device discovers
//! exactly one vendor-control interface, one lamp-array interface, and the
//! controller's temperature sensor; sending a report frames it (report
//! identifier, body, zero padding to the device-declared report length),
//! routes it to the right interface, and transmits it with the right
//! transmission kind. [`MockTransport`] is an in-memory implementation that
//! records every transmission, so the framing and dispatch logic can be
//! exercised without hardware.

use vstd::prelude::*;
use vstd::seq_lib::*;

use crate::report::{Interface, Report, ReportKind};
use crate::wire::{clone_bytes, pad_to, spec_zeros};

verus! {

/// USB vendor identifier the controller enumerates with unless overridden.
pub const DEFAULT_VENDOR_ID: u16 = 0xCAFE;

/// USB product identifier the controller enumerates with unless overridden.
pub const DEFAULT_PRODUCT_ID: u16 = 0x4100;

/// HID usage page of the lighting interface.
pub const USAGE_PAGE_LIGHTING: u16 = 0x59;

/// HID usage page of the vendor-control interface.
pub const USAGE_PAGE_VENDOR: u16 = 0xFF00;

/// HID usage of the lamp array on the lighting page.
pub const USAGE_LIGHTING_LAMP_ARRAY: u16 = 0x01;

/// HID usage of the controller on the vendor page.
pub const USAGE_VENDOR_12VRGB_CONTROLLER: u16 = 0x01;

/// Number of addressable lamps in the controller's array.
pub const LAMP_COUNT: u8 = 4;

/// How the facade can fail: the device (or one of its interfaces or its
/// sensor) is not present, or the platform transport reported an error,
/// carried here as its message.
#[derive(Debug, PartialEq, Eq)]
pub enum Error {
    NotFound,
    Backend(String),
}

impl Error {
    /// A short description of the error, as shown to the user.
    pub fn message(&self) -> (m: String)
        ensures
            self is NotFound ==> m@ == "device not found"@,
            self matches Error::Backend(s) ==> m@ == "system error: "@ + s@,
    {
        match self {
            Error::NotFound => "device not found".to_owned(),
            Error::Backend(s) => "system error: ".to_owned().concat(s.as_str()),
        }
    }
}

/// The discovery filter of one HID interface: its usage page and usage,
/// and the vendor and product identifiers of the device.
#[derive(Debug, Copy, Clone, PartialEq, Eq, Structural)]
pub struct DeviceFilter {
    pub usage_page: u16,
    pub usage: u16,
    pub vendor_id: u16,
    pub product_id: u16,
}

/// One completed transmission, as the transport model records it: where
/// the report went, how it was sent, its identifier, and the exact framed
/// bytes handed to the platform.
pub struct SentRecord {
    pub interface: Interface,
    pub kind: ReportKind,
    pub report_id: u8,
    pub bytes: Seq<u8>,
}

/// The synchronous platform HID primitives the facade depends on.
///
/// Four spec functions model the transport: the transmissions it has
/// completed, the interface instances it has opened (each with the filter
/// it was discovered by), the sensor paths it has bound, and the readings
/// its sensor has produced — each a log, in order. Every mutating method
/// says exactly which log it appends to on success and that it leaves the
/// others alone; no partial transmission counts as success.
pub trait Transport: Sized {
    /// The transmissions completed so far, in order. An implementation
    /// whose callers are reasoned about overrides this model; the default
    /// — under which `send` can promise nothing it can keep, so no
    /// verified implementation can leave it in place — stands only for
    /// platform transports outside the verified build.
    open spec fn sent(&self) -> Seq<SentRecord> {
        Seq::empty()
    }

    /// The interface instances opened so far, each with its discovery
    /// filter, in order. Same default convention as `sent`.
    open spec fn interfaces_opened(&self) -> Seq<(Interface, DeviceFilter)> {
        Seq::empty()
    }

    /// The device paths of the sensors bound so far, in order. Same
    /// default convention as `sent`.
    open spec fn sensors_opened(&self) -> Seq<Seq<u8>> {
        Seq::empty()
    }

    /// The raw readings the temperature sensor has produced, in order.
    /// Same default convention as `sent`.
    open spec fn readings(&self) -> Seq<i16> {
        Seq::empty()
    }

    /// How many HID interface instances currently match the filter.
    fn count_matching(&self, filter: DeviceFilter) -> (r: Result<usize, Error>);

    /// Opens the first interface instance matching the filter and binds it
    /// to the given role.
    fn open_interface(&mut self, interface: Interface, filter: DeviceFilter) -> (r: Result<
        (),
        Error,
    >)
        ensures
            r is Ok ==> final(self).interfaces_opened() == old(self).interfaces_opened().push(
                (interface, filter),
            ),
            r is Err ==> final(self).interfaces_opened() == old(self).interfaces_opened(),
            final(self).sent() == old(self).sent(),
            final(self).sensors_opened() == old(self).sensors_opened(),
    ;

    /// The device paths of the temperature sensors currently present, as
    /// byte strings.
    fn temp_sensor_paths(&self) -> (r: Result<Vec<Vec<u8>>, Error>);

    /// Binds the temperature sensor with the given device path.
    fn open_temp_sensor(&mut self, path: &Vec<u8>) -> (r: Result<(), Error>)
        ensures
            r is Ok ==> final(self).sensors_opened() == old(self).sensors_opened().push(path@),
            r is Err ==> final(self).sensors_opened() == old(self).sensors_opened(),
            final(self).sent() == old(self).sent(),
            final(self).interfaces_opened() == old(self).interfaces_opened(),
    ;

    /// The device-declared byte length of the report with this identifier,
    /// including the identifier byte itself.
    fn report_length(&self, interface: Interface, kind: ReportKind, report_id: u8) -> (r: Result<
        usize,
        Error,
    >);

    /// Transmits framed report bytes and waits for completion.
    fn send(
        &mut self,
        interface: Interface,
        kind: ReportKind,
        report_id: u8,
        data: &Vec<u8>,
    ) -> (r: Result<(), Error>)
        ensures
            r is Ok ==> final(self).sent() == old(self).sent().push(
                SentRecord { interface, kind, report_id, bytes: data@ },
            ),
            r is Err ==> final(self).sent() == old(self).sent(),
    ;

    /// Reads the temperature sensor: on success the returned value is
    /// exactly the raw reading the sensor produced.
    fn read_temperature(&mut self) -> (r: Result<i16, Error>)
        ensures
            r matches Ok(v) ==> final(self).readings() == old(self).readings().push(v),
            r is Err ==> final(self).readings() == old(self).readings(),
            final(self).sent() == old(self).sent(),
    ;
}

/// The discovery filter of the vendor-control interface for the given
/// device identifiers.
pub open spec fn spec_vendor_filter(vendor_id: u16, product_id: u16) -> DeviceFilter {
    DeviceFilter {
        usage_page: USAGE_PAGE_VENDOR,
        usage: USAGE_VENDOR_12VRGB_CONTROLLER,
        vendor_id,
        product_id,
    }
}

/// The discovery filter of the lamp-array interface for the given device
/// identifiers.
pub open spec fn spec_lamp_array_filter(vendor_id: u16, product_id: u16) -> DeviceFilter {
    DeviceFilter {
        usage_page: USAGE_PAGE_LIGHTING,
        usage: USAGE_LIGHTING_LAMP_ARRAY,
        vendor_id,
        product_id,
    }
}

/// The discovery decision for one interface: an enumeration that matched
/// no instances means the device is absent, anything else selects the
/// first instance.
pub fn find_first_device(count: usize) -> (r: Result<usize, Error>)
    ensures
        count == 0 ==> r == Err::<usize, Error>(Error::NotFound),
        count >= 1 ==> r == Ok::<usize, Error>(0usize),
{
    if count < 1 {
        Err(Error::NotFound)
    } else {
        Ok(0)
    }
}

/// The framed wire image of a report for a declared report length `n`: the
/// report identifier, the logical body, and zero padding up to `n` bytes.
pub open spec fn spec_framed(id: u8, body: Seq<u8>, n: nat) -> Seq<u8>
    recommends
        body.len() + 1 <= n,
{
    seq![id] + body + spec_zeros((n - (body.len() + 1)) as nat)
}

/// Frames a report body: identifier byte first, then the body, then zero
/// padding to the declared report length.
pub fn frame(id: u8, body: Vec<u8>, declared_len: usize) -> (r: Vec<u8>)
    requires
        body@.len() + 1 <= declared_len,
    ensures
        r@ == spec_framed(id, body@, declared_len as nat),
        r@.len() == declared_len,
{
    let ghost body0 = body@;
    let mut r: Vec<u8> = Vec::new();
    r.push(id);
    let mut body = body;
    r.append(&mut body);
    pad_to(&mut r, declared_len);
    assert(r@ =~= spec_framed(id, body0, declared_len as nat));
    r
}

/// Relates the transport model before and after a successful `send_report`
/// of `report`: for some declared report length `n` large enough for the
/// body, exactly one record was appended, carrying the report's interface,
/// kind, identifier, and framed bytes.
pub open spec fn sends_framed(
    pre: Seq<SentRecord>,
    post: Seq<SentRecord>,
    report: Report,
    n: nat,
) -> bool {
    &&& report.spec_body().len() + 1 <= n
    &&& post == pre.push(
        SentRecord {
            interface: report.spec_interface(),
            kind: report.spec_kind(),
            report_id: report.spec_id(),
            bytes: spec_framed(report.spec_id(), report.spec_body(), n),
        },
    )
}

/// Relates the transport's sensor bindings before and after a successful
/// open: exactly one sensor was bound, and its device path starts with
/// the prefix carrying the given vendor and product identifiers.
pub open spec fn binds_sensor(
    pre: Seq<Seq<u8>>,
    post: Seq<Seq<u8>>,
    vendor_id: u16,
    product_id: u16,
) -> bool {
    &&& post.len() == pre.len() + 1
    &&& post.drop_last() == pre
    &&& spec_sensor_path_prefix(vendor_id, product_id).is_prefix_of(post.last())
}

/// An open controller: the two HID interfaces and the temperature sensor,
/// reachable through one exclusively owned transport. A value of this type
/// exists only after a successful [`Device::open`].
pub struct Device<T> {
    t: T,
}

impl<T: Transport> Device<T> {
    /// The transmissions this device has completed, in order.
    pub closed spec fn sent(&self) -> Seq<SentRecord> {
        self.t.sent()
    }

    /// The interface instances this device's transport has opened, each
    /// with its discovery filter, in order.
    pub closed spec fn interfaces_opened(&self) -> Seq<(Interface, DeviceFilter)> {
        self.t.interfaces_opened()
    }

    /// The sensor device paths this device's transport has bound, in
    /// order.
    pub closed spec fn sensors_opened(&self) -> Seq<Seq<u8>> {
        self.t.sensors_opened()
    }

    /// The raw readings this device's sensor has produced, in order.
    pub closed spec fn readings(&self) -> Seq<i16> {
        self.t.readings()
    }

    /// Discovers and opens the controller: exactly one vendor-control
    /// interface and one lamp-array interface matching the vendor and
    /// product identifiers, and the temperature sensor whose device path
    /// carries those identifiers. Fails with [`Error::NotFound`] when any
    /// of the three is absent, and with the transport's error when the
    /// platform fails. On success, exactly the two fixed discovery
    /// filters were opened, vendor interface first; exactly one sensor
    /// was bound and its path carries the identifier prefix; and nothing
    /// was transmitted.
    pub fn open(vendor_id: u16, product_id: u16, transport: T) -> (r: Result<Device<T>, Error>)
        ensures
            r matches Ok(d) ==> ({
                &&& d.sent() == transport.sent()
                &&& d.interfaces_opened() == transport.interfaces_opened().push(
                    (Interface::Vendor, spec_vendor_filter(vendor_id, product_id)),
                ).push((Interface::LampArray, spec_lamp_array_filter(vendor_id, product_id)))
                &&& binds_sensor(
                    transport.sensors_opened(),
                    d.sensors_opened(),
                    vendor_id,
                    product_id,
                )
            }),
    {
        let mut t = transport;
        let vendor_filter = DeviceFilter {
            usage_page: USAGE_PAGE_VENDOR,
            usage: USAGE_VENDOR_12VRGB_CONTROLLER,
            vendor_id,
            product_id,
        };
        let n = match t.count_matching(vendor_filter) {
            Ok(n) => n,
            Err(e) => {
                return Err(e);
            },
        };
        match find_first_device(n) {
            Ok(_) => {},
            Err(e) => {
                return Err(e);
            },
        }
        match t.open_interface(Interface::Vendor, vendor_filter) {
            Ok(_) => {},
            Err(e) => {
                return Err(e);
            },
        }
        let lamp_array_filter = DeviceFilter {
            usage_page: USAGE_PAGE_LIGHTING,
            usage: USAGE_LIGHTING_LAMP_ARRAY,
            vendor_id,
            product_id,
        };
        let n = match t.count_matching(lamp_array_filter) {
            Ok(n) => n,
            Err(e) => {
                return Err(e);
            },
        };
        match find_first_device(n) {
            Ok(_) => {},
            Err(e) => {
                return Err(e);
            },
        }
        match t.open_interface(Interface::LampArray, lamp_array_filter) {
            Ok(_) => {},
            Err(e) => {
                return Err(e);
            },
        }
        let paths = match t.temp_sensor_paths() {
            Ok(paths) => paths,
            Err(e) => {
                return Err(e);
            },
        };
        match find_temp_sensor(&paths, vendor_id, product_id) {
            Some(index) => {
                match t.open_temp_sensor(&paths[index]) {
                    Ok(_) => {},
                    Err(e) => {
                        return Err(e);
                    },
                }
                proof {
                    assert(t.sensors_opened().drop_last() =~= transport.sensors_opened());
                    assert(binds_sensor(
                        transport.sensors_opened(),
                        t.sensors_opened(),
                        vendor_id,
                        product_id,
                    ));
                }
            },
            None => {
                return Err(Error::NotFound);
            },
        }
        Ok(Device { t })
    }

    /// Frames the report and transmits it: the framed bytes are the report
    /// identifier, the byte-exact body, and zero padding to the
    /// device-declared report length; they go to the report's interface
    /// with the report's transmission kind. On success exactly that one
    /// transmission happened; on failure nothing was transmitted.
    pub fn send_report(&mut self, report: Report) -> (r: Result<(), Error>)
        ensures
            r is Ok ==> exists|n: nat|
                sends_framed(old(self).sent(), final(self).sent(), report, n),
            r is Err ==> final(self).sent() == old(self).sent(),
    {
        let id = report.id();
        let interface = report.interface();
        let kind = report.kind();
        let body = report.body();
        proof {
            crate::report::lemma_body_len(report);
        }
        let declared_len = match self.t.report_length(interface, kind, id) {
            Ok(n) => n,
            Err(e) => {
                return Err(e);
            },
        };
        if declared_len < body.len() + 1 {
            return Err(
                Error::Backend("declared report length is shorter than the report".to_owned()),
            );
        }
        let framed = frame(id, body, declared_len);
        match self.t.send(interface, kind, id, &framed) {
            Ok(_) => {
                proof {
                    assert(sends_framed(
                        old(self).sent(),
                        self.sent(),
                        report,
                        declared_len as nat,
                    ));
                }
                Ok(())
            },
            Err(e) => Err(e),
        }
    }

    /// Reads the sensor and passes its raw reading through unchanged; any
    /// unit conversion for display is the caller's concern. Reading
    /// transmits nothing.
    pub fn read_temperature(&mut self) -> (r: Result<i16, Error>)
        ensures
            r matches Ok(v) ==> final(self).readings() == old(self).readings().push(v),
            r is Err ==> final(self).readings() == old(self).readings(),
            final(self).sent() == old(self).sent(),
    {
        self.t.read_temperature()
    }

    /// The transport this device owns, for inspection.
    pub fn transport(&self) -> (t: &T)
        ensures
            t.sent() == self.sent(),
    {
        &self.t
    }
}

/// The wire byte of one uppercase hexadecimal digit.
pub open spec fn spec_hex_digit(v: int) -> u8
    recommends
        0 <= v < 16,
{
    if v < 10 {
        (48 + v) as u8
    } else {
        (55 + v) as u8
    }
}

/// The four uppercase hexadecimal digit bytes of a 16-bit value, most
/// significant first.
pub open spec fn spec_hex4(v: u16) -> Seq<u8> {
    seq![
        spec_hex_digit(v as int / 4096 % 16),
        spec_hex_digit(v as int / 256 % 16),
        spec_hex_digit(v as int / 16 % 16),
        spec_hex_digit(v as int % 16),
    ]
}

/// The device-path prefix of the controller's temperature sensor: a HID
/// instance path carrying the vendor and product identifiers as four
/// uppercase hexadecimal digits each.
pub open spec fn spec_sensor_path_prefix(vendor_id: u16, product_id: u16) -> Seq<u8> {
    seq![('\\' as u8), ('\\' as u8), ('?' as u8), ('\\' as u8), ('H' as u8), ('I' as u8), ('D' as u8), ('#' as u8), ('V' as u8), ('I' as u8), ('D' as u8), ('_' as u8)] + spec_hex4(
        vendor_id,
    ) + seq![('&' as u8), ('P' as u8), ('I' as u8), ('D' as u8), ('_' as u8)] + spec_hex4(product_id) + seq![('&' as u8)]
}

fn hex_digit(v: u16) -> (d: u8)
    requires
        v < 16,
    ensures
        d == spec_hex_digit(v as int),
{
    if v < 10 {
        48 + (v as u8)
    } else {
        55 + (v as u8)
    }
}

fn push_hex4(p: &mut Vec<u8>, v: u16)
    ensures
        final(p)@ == old(p)@ + spec_hex4(v),
{
    p.push(hex_digit(v / 4096 % 16));
    p.push(hex_digit(v / 256 % 16));
    p.push(hex_digit(v / 16 % 16));
    p.push(hex_digit(v % 16));
    assert(p@ =~= old(p)@ + spec_hex4(v));
}

/// Builds the sensor device-path prefix for the given vendor and product
/// identifiers.
pub fn sensor_path_prefix(vendor_id: u16, product_id: u16) -> (p: Vec<u8>)
    ensures
        p@ == spec_sensor_path_prefix(vendor_id, product_id),
{
    let mut p: Vec<u8> = Vec::new();
    p.push(('\\' as u8));
    p.push(('\\' as u8));
    p.push(('?' as u8));
    p.push(('\\' as u8));
    p.push(('H' as u8));
    p.push(('I' as u8));
    p.push(('D' as u8));
    p.push(('#' as u8));
    p.push(('V' as u8));
    p.push(('I' as u8));
    p.push(('D' as u8));
    p.push(('_' as u8));
    push_hex4(&mut p, vendor_id);
    p.push(('&' as u8));
    p.push(('P' as u8));
    p.push(('I' as u8));
    p.push(('D' as u8));
    p.push(('_' as u8));
    push_hex4(&mut p, product_id);
    p.push(('&' as u8));
    assert(p@ =~= spec_sensor_path_prefix(vendor_id, product_id));
    p
}

/// True when `prefix` is a prefix of `s`.
pub fn bytes_starts_with(s: &Vec<u8>, prefix: &Vec<u8>) -> (r: bool)
    ensures
        r == prefix@.is_prefix_of(s@),
{
    if prefix.len() > s.len() {
        return false;
    }
    let mut i: usize = 0;
    while i < prefix.len()
        invariant
            i <= prefix@.len() <= s@.len(),
            forall|j: int| 0 <= j < i ==> s@[j] == prefix@[j],
        decreases prefix@.len() - i,
    {
        if s[i] != prefix[i] {
            return false;
        }
        i = i + 1;
    }
    proof {
        assert(prefix@ =~= s@.subrange(0, prefix@.len() as int));
    }
    true
}

/// Finds the controller's temperature sensor among the enumerated sensor
/// device paths: the first whose path starts with the prefix carrying the
/// given vendor and product identifiers, or nothing when no path does.
pub fn find_temp_sensor(paths: &Vec<Vec<u8>>, vendor_id: u16, product_id: u16) -> (r: Option<
    usize,
>)
    ensures
        r matches Some(i) ==> i < paths@.len() && spec_sensor_path_prefix(
            vendor_id,
            product_id,
        ).is_prefix_of(paths@[i as int]@) && forall|j: int|
            0 <= j < i ==> !spec_sensor_path_prefix(vendor_id, product_id).is_prefix_of(
                paths@[j]@,
            ),
        r is None ==> forall|j: int|
            0 <= j < paths@.len() ==> !spec_sensor_path_prefix(vendor_id, product_id).is_prefix_of(
                paths@[j]@,
            ),
{
    let prefix = sensor_path_prefix(vendor_id, product_id);
    let mut i: usize = 0;
    while i < paths.len()
        invariant
            i <= paths@.len(),
            prefix@ == spec_sensor_path_prefix(vendor_id, product_id),
            forall|j: int|
                0 <= j < i ==> !spec_sensor_path_prefix(vendor_id, product_id).is_prefix_of(
                    paths@[j]@,
                ),
        decreases paths@.len() - i,
    {
        if bytes_starts_with(&paths[i], &prefix) {
            return Some(i);
        }
        i = i + 1;
    }
    None
}

/// One transmission as recorded by [`MockTransport`]: the destination and
/// kind, the report identifier, and the framed bytes.
#[derive(Debug)]
pub struct MockRecord {
    pub interface: Interface,
    pub kind: ReportKind,
    pub report_id: u8,
    pub bytes: Vec<u8>,
}

/// An in-memory transport: it matches one interface instance per filter,
/// declares one fixed report length for every report, lists one sensor
/// path, answers one fixed temperature, and records every transmission.
#[derive(Debug)]
pub struct MockTransport {
    pub declared_len: usize,
    pub matching_interfaces: usize,
    pub sensor_paths: Vec<Vec<u8>>,
    pub temperature: i16,
    pub records: Vec<MockRecord>,
    pub opened_interfaces: Vec<(Interface, DeviceFilter)>,
    pub opened_sensor_paths: Vec<Vec<u8>>,
    pub reading_log: Vec<i16>,
}

impl MockTransport {
    /// A mock with the given declared report length, one matching
    /// interface per filter, the given sensor path, and no transmissions.
    pub fn new(declared_len: usize, sensor_path: Vec<u8>) -> (t: MockTransport)
        ensures
            t.sent() == Seq::<SentRecord>::empty(),
            t.interfaces_opened() == Seq::<(Interface, DeviceFilter)>::empty(),
            t.sensors_opened() == Seq::<Seq<u8>>::empty(),
            t.readings() == Seq::<i16>::empty(),
            t.declared_len == declared_len,
    {
        let mut sensor_paths: Vec<Vec<u8>> = Vec::new();
        sensor_paths.push(sensor_path);
        let t = MockTransport {
            declared_len,
            matching_interfaces: 1,
            sensor_paths,
            temperature: 0,
            records: Vec::new(),
            opened_interfaces: Vec::new(),
            opened_sensor_paths: Vec::new(),
            reading_log: Vec::new(),
        };
        proof {
            assert(t.sent() =~= Seq::<SentRecord>::empty());
            assert(t.sensors_opened() =~= Seq::<Seq<u8>>::empty());
        }
        t
    }
}

impl Transport for MockTransport {
    open spec fn sent(&self) -> Seq<SentRecord> {
        self.records@.map_values(
            |r: MockRecord|
                SentRecord {
                    interface: r.interface,
                    kind: r.kind,
                    report_id: r.report_id,
                    bytes: r.bytes@,
                },
        )
    }

    open spec fn interfaces_opened(&self) -> Seq<(Interface, DeviceFilter)> {
        self.opened_interfaces@
    }

    open spec fn sensors_opened(&self) -> Seq<Seq<u8>> {
        self.opened_sensor_paths@.map_values(|p: Vec<u8>| p@)
    }

    open spec fn readings(&self) -> Seq<i16> {
        self.reading_log@
    }

    fn count_matching(&self, filter: DeviceFilter) -> (r: Result<usize, Error>) {
        Ok(self.matching_interfaces)
    }

    fn open_interface(&mut self, interface: Interface, filter: DeviceFilter) -> (r: Result<
        (),
        Error,
    >) {
        self.opened_interfaces.push((interface, filter));
        Ok(())
    }

    fn temp_sensor_paths(&self) -> (r: Result<Vec<Vec<u8>>, Error>) {
        let mut paths: Vec<Vec<u8>> = Vec::new();
        let mut i: usize = 0;
        while i < self.sensor_paths.len()
            decreases self.sensor_paths@.len() - i,
        {
            paths.push(clone_bytes(&self.sensor_paths[i]));
            i = i + 1;
        }
        Ok(paths)
    }

    fn open_temp_sensor(&mut self, path: &Vec<u8>) -> (r: Result<(), Error>) {
        self.opened_sensor_paths.push(clone_bytes(path));
        proof {
            assert(self.sensors_opened() =~= old(self).sensors_opened().push(path@));
        }
        Ok(())
    }

    fn report_length(&self, interface: Interface, kind: ReportKind, report_id: u8) -> (r: Result<
        usize,
        Error,
    >) {
        Ok(self.declared_len)
    }

    fn send(
        &mut self,
        interface: Interface,
        kind: ReportKind,
        report_id: u8,
        data: &Vec<u8>,
    ) -> (r: Result<(), Error>) {
        let record = MockRecord { interface, kind, report_id, bytes: clone_bytes(data) };
        self.records.push(record);
        proof {
            assert(self.sent() =~= old(self).sent().push(
                SentRecord { interface, kind, report_id, bytes: data@ },
            ));
        }
        Ok(())
    }

    fn read_temperature(&mut self) -> (r: Result<i16, Error>) {
        let v = self.temperature;
        self.reading_log.push(v);
        Ok(v)
    }
}

} // verus!
