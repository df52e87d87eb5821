//! Tells the dock of the lower panel from the side USB port by the hub port at which the keyboard
//! appears.
//!
//! The kernel's `devpath` attribute is the hub port, and stays the same when the device number
//! changes.
use vstd::prelude::*;

use crate::config::UsbKeyboardPortsConfig;
use crate::text::{decimal_text, parse_number, same};

verus! {

pub const SYSFS_DEVPATH_RETRY_COUNT: u32 = 25;

pub const SYSFS_DEVPATH_RETRY_DELAY_MS: u64 = 40;

/// What is known of the keyboard's ports. Each part is set once; later values are ignored.
pub struct UsbKeyboardPorts {
    pogo_devpaths: Option<Vec<String>>,
    keyboard_ids: Option<(u16, u16)>,
}

pub struct UsbKeyboardPortsView {
    pub pogo_devpaths: Option<Seq<Seq<char>>>,
    pub keyboard_ids: Option<(u16, u16)>,
}

impl View for UsbKeyboardPorts {
    type V = UsbKeyboardPortsView;

    closed spec fn view(&self) -> UsbKeyboardPortsView {
        UsbKeyboardPortsView {
            pogo_devpaths: match self.pogo_devpaths {
                Some(v) => Some(crate::text::texts(v@)),
                None => None,
            },
            keyboard_ids: self.keyboard_ids,
        }
    }
}

impl UsbKeyboardPortsView {
    /// The port is one of the dock.
    pub open spec fn is_dock(self, devpath: Seq<char>) -> bool {
        self.pogo_devpaths matches Some(paths) && paths.contains(devpath)
    }
}

impl UsbKeyboardPorts {
    /// Nothing is known yet.
    pub fn new() -> (r: Self)
        ensures
            r@ == (UsbKeyboardPortsView { pogo_devpaths: None, keyboard_ids: None }),
    {
        UsbKeyboardPorts { pogo_devpaths: None, keyboard_ids: None }
    }
}

/// Takes the dock's ports from the settings, unless they are known already.
pub fn init_pogo_devpaths(ports: &mut UsbKeyboardPorts, config: &UsbKeyboardPortsConfig)
    ensures
        final(ports)@ == (if old(ports)@.pogo_devpaths is Some {
            old(ports)@
        } else {
            UsbKeyboardPortsView {
                pogo_devpaths: Some(
                    crate::text::texts(config.pogo_dock_hub_ports@),
                ),
                ..old(ports)@
            }
        }),
{
    if ports.pogo_devpaths.is_some() {
        return ;
    }
    let from = &config.pogo_dock_hub_ports;
    let mut paths: Vec<String> = Vec::new();
    let mut i: usize = 0;
    while i < from.len()
        invariant
            i <= from@.len(),
            paths@ =~= from@.take(i as int),
        decreases from@.len() - i,
    {
        paths.push(from[i].clone());
        i = i + 1;
    }
    proof {
        assert(paths@ =~= from@);
    }
    ports.pogo_devpaths = Some(paths);
}

/// Takes the keyboard's vendor and product id, unless they are known already.
pub fn init_usb_keyboard_ids(ports: &mut UsbKeyboardPorts, vendor_id: u16, product_id: u16)
    ensures
        final(ports)@ == (UsbKeyboardPortsView {
            keyboard_ids: if old(ports)@.keyboard_ids is Some {
                old(ports)@.keyboard_ids
            } else {
                Some((vendor_id, product_id))
            },
            ..old(ports)@
        }),
{
    if ports.keyboard_ids.is_none() {
        ports.keyboard_ids = Some((vendor_id, product_id));
    }
}

/// Whether a hub port is one of the dock.
pub fn is_pogo_dock_devpath(ports: &UsbKeyboardPorts, devpath: &str) -> (r: bool)
    ensures
        r == ports@.is_dock(devpath@),
{
    match &ports.pogo_devpaths {
        None => false,
        Some(paths) => {
            let ghost view = crate::text::texts(paths@);
            let mut i: usize = 0;
            while i < paths.len()
                invariant
                    i <= paths@.len(),
                    view == crate::text::texts(paths@),
                    ports@.pogo_devpaths == Some(view),
                    forall|j: int| 0 <= j < i ==> view[j] != devpath@,
                decreases paths@.len() - i,
            {
                proof {
                    assert(view[i as int] == paths@[i as int]@);
                }
                if same(paths[i].as_str(), devpath) {
                    return true;
                }
                i = i + 1;
            }
            false
        },
    }
}

/// The bus number that a bus id stands for.
pub open spec fn bus_number(bus_id: Seq<char>) -> Option<nat> {
    crate::text::number_value(bus_id, 10, 255)
}

/// Reads a bus id: a decimal number of at most 255.
pub fn parse_bus_id(bus_id: &str) -> (r: Option<u8>)
    ensures
        match r {
            Some(n) => bus_number(bus_id@) == Some(n as nat),
            None => bus_number(bus_id@) is None,
        },
{
    match parse_number(bus_id, 10, 255) {
        Some(n) => Some(n as u8),
        None => None,
    }
}

/// The attributes of a USB device; one that could not be read is absent.
pub struct SysfsUsbDevice {
    pub busnum: Option<String>,
    pub devnum: Option<String>,
    pub id_vendor: Option<String>,
    pub id_product: Option<String>,
    pub devpath: Option<String>,
}

/// An attribute as the kernel gives it, without the line end.
pub fn read_sysfs_trimmed(content: Option<&str>) -> (r: Option<String>)
    ensures
        crate::state::text_view(r) == (match content {
            Some(text) => Some(crate::text::trimmed(text@)),
            None => None,
        }),
{
    match content {
        Some(text) => Some(crate::text::trim(text)),
        None => None,
    }
}

fn is_text(a: &Option<String>, b: &str) -> (r: bool)
    ensures
        r == (crate::state::text_view(*a) == Some(b@)),
{
    match a {
        Some(t) => same(t.as_str(), b),
        None => false,
    }
}

/// The device has the given bus and device number.
pub open spec fn at_address(d: SysfsUsbDevice, bus: nat, address: u8) -> bool {
    crate::state::text_view(d.busnum) == Some(crate::text::decimal(bus)) && crate::state::text_view(
        d.devnum,
    ) == Some(crate::text::decimal(address as nat))
}

/// The hub port of the first device with the given address.
pub open spec fn devpath_by_address(
    devices: Seq<SysfsUsbDevice>,
    bus_id: Seq<char>,
    address: u8,
) -> Option<Seq<char>> {
    match bus_number(bus_id) {
        None => None,
        Some(bus) => match crate::seqs::first_where(
            devices,
            |d: SysfsUsbDevice| at_address(d, bus, address),
        ) {
            Some(d) => crate::state::text_view(d.devpath),
            None => None,
        },
    }
}

fn copy_text(s: &Option<String>) -> (r: Option<String>)
    ensures
        r == *s,
{
    match s {
        Some(t) => Some(t.clone()),
        None => None,
    }
}

/// Looks up the hub port of a device by its bus and device number.
pub fn sysfs_devpath_for_usb_device_once(
    devices: &Vec<SysfsUsbDevice>,
    bus_id: &str,
    device_address: u8,
) -> (r: Option<String>)
    ensures
        crate::state::text_view(r) == devpath_by_address(devices@, bus_id@, device_address),
{
    let busnum: u8 = match parse_bus_id(bus_id) {
        Some(n) => n,
        None => return None,
    };
    let bus = decimal_text(busnum as u64);
    let address = decimal_text(device_address as u64);
    let ghost here = |d: SysfsUsbDevice| at_address(d, busnum as nat, device_address);
    let mut i: usize = 0;
    while i < devices.len()
        invariant
            i <= devices@.len(),
            bus@ == crate::text::decimal(busnum as nat),
            address@ == crate::text::decimal(device_address as nat),
            here == (|d: SysfsUsbDevice| at_address(d, busnum as nat, device_address)),
            bus_number(bus_id@) == Some(busnum as nat),
            forall|j: int| 0 <= j < i ==> !here(#[trigger] devices@[j]),
        decreases devices@.len() - i,
    {
        let d = &devices[i];
        if is_text(&d.busnum, bus.as_str()) && is_text(&d.devnum, address.as_str()) {
            proof {
                crate::seqs::lemma_first_where_found(devices@, here, i as int);
            }
            return copy_text(&d.devpath);
        }
        i = i + 1;
    }
    proof {
        crate::seqs::lemma_first_where_absent(devices@, here);
    }
    None
}

// ── By vendor and product ────────────────────────────────────────────────────

pub open spec fn hex_digit(d: int) -> char {
    if d == 10 {
        'a'
    } else if d == 11 {
        'b'
    } else if d == 12 {
        'c'
    } else if d == 13 {
        'd'
    } else if d == 14 {
        'e'
    } else if d == 15 {
        'f'
    } else {
        crate::text::digit(d as nat)
    }
}

/// `n` as four lower-case hexadecimal digits.
pub open spec fn hex4(n: u16) -> Seq<char> {
    seq![
        hex_digit(n as int / 4096),
        hex_digit(n as int / 256 % 16),
        hex_digit(n as int / 16 % 16),
        hex_digit(n as int % 16),
    ]
}

fn hex_digit_char(d: u16) -> (c: char)
    requires
        d < 16,
    ensures
        c == hex_digit(d as int),
{
    match d {
        0 => '0',
        1 => '1',
        2 => '2',
        3 => '3',
        4 => '4',
        5 => '5',
        6 => '6',
        7 => '7',
        8 => '8',
        9 => '9',
        10 => 'a',
        11 => 'b',
        12 => 'c',
        13 => 'd',
        14 => 'e',
        _ => 'f',
    }
}

/// Formats an id as the kernel does.
pub fn hex4_text(n: u16) -> (r: String)
    ensures
        r@ == hex4(n),
{
    let mut s = String::new();
    crate::text::push_char(&mut s, hex_digit_char(n / 4096));
    crate::text::push_char(&mut s, hex_digit_char(n / 256 % 16));
    crate::text::push_char(&mut s, hex_digit_char(n / 16 % 16));
    crate::text::push_char(&mut s, hex_digit_char(n % 16));
    proof {
        assert(s@ =~= hex4(n));
    }
    s
}

/// The device is the keyboard, is on the given bus, and its hub port could be read.
pub open spec fn is_keyboard_on(d: SysfsUsbDevice, bus: nat, ids: (u16, u16)) -> bool {
    &&& crate::state::text_view(d.busnum) == Some(crate::text::decimal(bus))
    &&& crate::state::text_view(d.id_vendor) == Some(hex4(ids.0))
    &&& crate::state::text_view(d.id_product) == Some(hex4(ids.1))
    &&& d.devpath is Some
}

/// The hub port of the keyboard on a bus, found by its ids: that of the only one there, or of
/// the first one with the given device number if there are several.
pub open spec fn devpath_by_ids(
    devices: Seq<SysfsUsbDevice>,
    ids: Option<(u16, u16)>,
    bus_id: Seq<char>,
    address: u8,
) -> Option<Seq<char>> {
    match (ids, bus_number(bus_id)) {
        (Some(ids), Some(bus)) => {
            let found = devices.filter(|d: SysfsUsbDevice| is_keyboard_on(d, bus, ids));
            if found.len() == 1 {
                crate::state::text_view(found[0].devpath)
            } else {
                match crate::seqs::first_where(
                    found,
                    |d: SysfsUsbDevice| numbered(d, address),
                ) {
                    Some(d) => crate::state::text_view(d.devpath),
                    None => None,
                }
            }
        },
        _ => None,
    }
}

pub open spec fn numbered(d: SysfsUsbDevice, address: u8) -> bool {
    crate::state::text_view(d.devnum) == Some(crate::text::decimal(address as nat))
}

fn keyboards_on(devices: &Vec<SysfsUsbDevice>, busnum: u8, ids: (u16, u16)) -> (found: Vec<usize>)
    ensures
        found@.len() == devices@.filter(
            |d: SysfsUsbDevice| is_keyboard_on(d, busnum as nat, ids),
        ).len(),
        forall|k: int|
            0 <= k < found@.len() ==> (#[trigger] found@[k]) < devices@.len()
                && devices@[found@[k] as int] == devices@.filter(
                |d: SysfsUsbDevice| is_keyboard_on(d, busnum as nat, ids),
            )[k],
{
    let ghost here = |d: SysfsUsbDevice| is_keyboard_on(d, busnum as nat, ids);
    let bus = decimal_text(busnum as u64);
    let vid = hex4_text(ids.0);
    let pid = hex4_text(ids.1);
    let mut found: Vec<usize> = Vec::new();
    let mut i: usize = 0;
    proof {
        assert(devices@.take(0).filter(here) =~= Seq::empty()) by {
            reveal(Seq::filter);
        }
    }
    while i < devices.len()
        invariant
            i <= devices@.len(),
            bus@ == crate::text::decimal(busnum as nat),
            vid@ == hex4(ids.0),
            pid@ == hex4(ids.1),
            here == (|d: SysfsUsbDevice| is_keyboard_on(d, busnum as nat, ids)),
            found@.len() == devices@.take(i as int).filter(here).len(),
            forall|k: int|
                0 <= k < found@.len() ==> (#[trigger] found@[k]) < devices@.len()
                    && devices@[found@[k] as int] == devices@.take(i as int).filter(here)[k],
        decreases devices@.len() - i,
    {
        let d = &devices[i];
        proof {
            assert(devices@.take(i as int + 1).drop_last() =~= devices@.take(i as int));
            assert(devices@.take(i as int + 1).last() == devices@[i as int]);
            reveal(Seq::filter);
        }
        if is_text(&d.busnum, bus.as_str()) && is_text(&d.id_vendor, vid.as_str()) && is_text(
            &d.id_product,
            pid.as_str(),
        ) && d.devpath.is_some() {
            found.push(i);
        }
        i = i + 1;
    }
    proof {
        assert(devices@.take(devices@.len() as int) =~= devices@);
    }
    found
}

/// Looks up the hub port of the keyboard by its ids, for when its device number is not there yet.
pub fn sysfs_devpath_for_vendor_product_on_bus(
    ports: &UsbKeyboardPorts,
    devices: &Vec<SysfsUsbDevice>,
    bus_id: &str,
    device_address: u8,
) -> (r: Option<String>)
    ensures
        crate::state::text_view(r) == devpath_by_ids(
            devices@,
            ports@.keyboard_ids,
            bus_id@,
            device_address,
        ),
{
    let ids: (u16, u16) = match ports.keyboard_ids {
        Some(ids) => ids,
        None => return None,
    };
    let busnum: u8 = match parse_bus_id(bus_id) {
        Some(n) => n,
        None => return None,
    };
    let found = keyboards_on(devices, busnum, ids);
    let ghost here = |d: SysfsUsbDevice| is_keyboard_on(d, busnum as nat, ids);
    let ghost list = devices@.filter(here);
    if found.len() == 1 {
        return copy_text(&devices[found[0]].devpath);
    }
    let address = decimal_text(device_address as u64);
    let ghost at = |d: SysfsUsbDevice| numbered(d, device_address);
    let mut k: usize = 0;
    while k < found.len()
        invariant
            k <= found@.len(),
            found@.len() != 1,
            found@.len() == list.len(),
            list == devices@.filter(here),
            here == (|d: SysfsUsbDevice| is_keyboard_on(d, busnum as nat, ids)),
            at == (|d: SysfsUsbDevice| numbered(d, device_address)),
            address@ == crate::text::decimal(device_address as nat),
            bus_number(bus_id@) == Some(busnum as nat),
            ports@.keyboard_ids == Some(ids),
            forall|j: int|
                0 <= j < found@.len() ==> (#[trigger] found@[j]) < devices@.len()
                    && devices@[found@[j] as int] == list[j],
            forall|j: int| 0 <= j < k ==> !at(#[trigger] list[j]),
        decreases found@.len() - k,
    {
        let d = &devices[found[k]];
        proof {
            assert(*d == list[k as int]);
        }
        if is_text(&d.devnum, address.as_str()) {
            proof {
                crate::seqs::lemma_first_where_found(list, at, k as int);
            }
            return copy_text(&d.devpath);
        }
        k = k + 1;
    }
    proof {
        crate::seqs::lemma_first_where_absent(list, at);
    }
    None
}

// ── The lookup ───────────────────────────────────────────────────────────────

/// What to do next to find out whether the keyboard is on the dock.
#[derive(Clone, Copy, Debug, PartialEq, Eq, Structural)]
pub enum DockLookup {
    Done(bool),
    /// Read the devices again after a delay.
    Retry { delay_ms: u64 },
    /// Read the devices again and look for the ids.
    FindByIds,
}

/// The answer to attempt number `attempt`, from 0: the hub port decides if it was found; else
/// there is another attempt, and after the last one the ids are looked for.
pub open spec fn lookup_step(
    ports: UsbKeyboardPortsView,
    devices: Seq<SysfsUsbDevice>,
    bus_id: Seq<char>,
    address: u8,
    attempt: u32,
) -> DockLookup {
    match devpath_by_address(devices, bus_id, address) {
        Some(devpath) => DockLookup::Done(ports.is_dock(devpath)),
        None => if attempt + 1 < SYSFS_DEVPATH_RETRY_COUNT {
            DockLookup::Retry { delay_ms: SYSFS_DEVPATH_RETRY_DELAY_MS }
        } else {
            DockLookup::FindByIds
        },
    }
}

/// One attempt to find out whether the keyboard is on the dock.
pub fn keyboard_on_pogo_dock_attempt(
    ports: &UsbKeyboardPorts,
    devices: &Vec<SysfsUsbDevice>,
    bus_id: &str,
    device_address: u8,
    attempt: u32,
) -> (r: DockLookup)
    requires
        attempt < SYSFS_DEVPATH_RETRY_COUNT,
    ensures
        r == lookup_step(ports@, devices@, bus_id@, device_address, attempt),
{
    match sysfs_devpath_for_usb_device_once(devices, bus_id, device_address) {
        Some(devpath) => DockLookup::Done(is_pogo_dock_devpath(ports, devpath.as_str())),
        None => if attempt + 1 < SYSFS_DEVPATH_RETRY_COUNT {
            DockLookup::Retry { delay_ms: SYSFS_DEVPATH_RETRY_DELAY_MS }
        } else {
            DockLookup::FindByIds
        },
    }
}

/// The last resort: a keyboard whose hub port cannot be found counts as not docked.
pub fn keyboard_on_pogo_dock_by_ids(
    ports: &UsbKeyboardPorts,
    devices: &Vec<SysfsUsbDevice>,
    bus_id: &str,
    device_address: u8,
) -> (r: bool)
    ensures
        r == (match devpath_by_ids(devices@, ports@.keyboard_ids, bus_id@, device_address) {
            Some(devpath) => ports@.is_dock(devpath),
            None => false,
        }),
{
    match sysfs_devpath_for_vendor_product_on_bus(ports, devices, bus_id, device_address) {
        Some(devpath) => is_pogo_dock_devpath(ports, devpath.as_str()),
        None => false,
    }
}

// ── What the lookups find ────────────────────────────────────────────────────

/// A port is one of the dock exactly if the settings list it.
pub proof fn law_ports_of_the_dock(ports: UsbKeyboardPortsView, devpath: Seq<char>)
    ensures
        ports.pogo_devpaths is None ==> !ports.is_dock(devpath),
        ports.pogo_devpaths matches Some(paths) ==> (ports.is_dock(devpath) <==> exists|i: int|
            0 <= i < paths.len() && #[trigger] paths[i] == devpath),
{
}

/// Every bus number up to 255 is read from its decimal, and none above.
pub proof fn law_bus_numbers(n: nat)
    ensures
        n <= 255 ==> bus_number(crate::text::decimal(n)) == Some(n),
        n > 255 ==> bus_number(crate::text::decimal(n)) is None,
{
    if n <= 255 {
        crate::text::law_decimal_reads_back(n, 255);
    } else {
        crate::text::law_numbers_that_are_refused(n, 255, Seq::empty(), 0);
    }
}

proof fn lemma_first_at_address(devices: Seq<SysfsUsbDevice>, bus: nat, address: u8, i: int)
    requires
        0 <= i < devices.len(),
        at_address(devices[i], bus, address),
        forall|j: int| 0 <= j < i ==> !at_address(#[trigger] devices[j], bus, address),
    ensures
        crate::seqs::first_where(devices, |d: SysfsUsbDevice| at_address(d, bus, address)) == Some(
            devices[i],
        ),
{
    let p = |d: SysfsUsbDevice| at_address(d, bus, address);
    assert forall|j: int| 0 <= j < i implies !p(#[trigger] devices[j]) by {}
    crate::seqs::lemma_first_where_found(devices, p, i);
}

proof fn lemma_none_at_address(devices: Seq<SysfsUsbDevice>, bus: nat, address: u8)
    requires
        forall|j: int| 0 <= j < devices.len() ==> !at_address(#[trigger] devices[j], bus, address),
    ensures
        crate::seqs::first_where(devices, |d: SysfsUsbDevice| at_address(d, bus, address)) is None,
{
    let p = |d: SysfsUsbDevice| at_address(d, bus, address);
    assert forall|j: int| 0 <= j < devices.len() implies !p(#[trigger] devices[j]) by {}
    crate::seqs::lemma_first_where_absent(devices, p);
}

/// The port found is that of the first device with the bus number and the device number asked for,
/// both compared in decimal; no other device counts.
pub proof fn law_port_by_address(
    devices: Seq<SysfsUsbDevice>,
    bus: nat,
    address: u8,
    i: int,
    d: SysfsUsbDevice,
)
    requires
        bus <= 255,
    ensures
        at_address(d, bus, address) <==> d.busnum is Some && d.busnum->0@ == crate::text::decimal(
            bus,
        ) && d.devnum is Some && d.devnum->0@ == crate::text::decimal(address as nat),
        0 <= i < devices.len() && at_address(devices[i], bus, address) && devices[i].devpath is Some
            && (forall|j: int| 0 <= j < i ==> !at_address(#[trigger] devices[j], bus, address))
            ==> devpath_by_address(devices, crate::text::decimal(bus), address) == Some(
            devices[i].devpath->0@,
        ),
        (forall|j: int|
            0 <= j < devices.len() ==> !at_address(#[trigger] devices[j], bus, address))
            ==> devpath_by_address(devices, crate::text::decimal(bus), address) is None,
{
    law_bus_numbers(bus);
    if 0 <= i < devices.len() && at_address(devices[i], bus, address) && (forall|j: int|
        0 <= j < i ==> !at_address(#[trigger] devices[j], bus, address)) {
        lemma_first_at_address(devices, bus, address, i);
    }
    if forall|j: int| 0 <= j < devices.len() ==> !at_address(#[trigger] devices[j], bus, address) {
        lemma_none_at_address(devices, bus, address);
    }
}

proof fn lemma_hex_digit_reads_back(d: int)
    requires
        0 <= d < 16,
    ensures
        crate::text::digit_value(hex_digit(d), 16) == Some(d as nat),
        hex_digit(d) != '+',
{
}

proof fn lemma_four_digits(s: Seq<char>, a: nat, b: nat, c: nat, d: nat)
    requires
        s.len() == 4,
        crate::text::digit_value(s[0], 16) == Some(a),
        crate::text::digit_value(s[1], 16) == Some(b),
        crate::text::digit_value(s[2], 16) == Some(c),
        crate::text::digit_value(s[3], 16) == Some(d),
    ensures
        crate::text::digits_value(s, 16) == Some((((a * 16 + b) * 16 + c) * 16 + d) as nat),
{
    let three = s.drop_last();
    let two = three.drop_last();
    let one = two.drop_last();
    assert(one.drop_last() =~= Seq::empty());
    assert(crate::text::digits_value(Seq::empty(), 16) == Some(0nat));
    assert(crate::text::digits_value(one, 16) == Some(a));
    assert(crate::text::digits_value(two, 16) == Some(a * 16 + b));
    assert(crate::text::digits_value(three, 16) == Some((a * 16 + b) * 16 + c));
}

/// An id written with four digits reads back as the same number.
pub proof fn law_ids_read_back(n: u16)
    ensures
        hex4(n).len() == 4,
        crate::text::number_value(hex4(n), 16, 65535) == Some(n as nat),
{
    let m = n as int;
    lemma_hex_digit_reads_back(m / 4096);
    lemma_hex_digit_reads_back(m / 256 % 16);
    lemma_hex_digit_reads_back(m / 16 % 16);
    lemma_hex_digit_reads_back(m % 16);
    lemma_four_digits(
        hex4(n),
        (m / 4096) as nat,
        (m / 256 % 16) as nat,
        (m / 16 % 16) as nat,
        (m % 16) as nat,
    );
    assert(((m / 4096 * 16 + m / 256 % 16) * 16 + m / 16 % 16) * 16 + m % 16 == m);
    assert(crate::text::unsigned_part(hex4(n)) == hex4(n));
}

/// The letters of hexadecimal digits are small.
pub proof fn law_hexadecimal_letters(d: int)
    requires
        0 <= d < 16,
    ensures
        d < 10 ==> hex_digit(d) as int == '0' as int + d,
        d >= 10 ==> hex_digit(d) as int == 'a' as int + d - 10,
{
}

proof fn lemma_only_one<T>(s: Seq<T>, p: spec_fn(T) -> bool, i: int)
    requires
        0 <= i < s.len(),
        p(s[i]),
        forall|j: int| 0 <= j < s.len() && j != i ==> !p(#[trigger] s[j]),
    ensures
        s.filter(p) == seq![s[i]],
    decreases s.len(),
{
    reveal(Seq::filter);
    let before = s.drop_last();
    if i < s.len() - 1 {
        assert forall|j: int| 0 <= j < before.len() && j != i implies !p(#[trigger] before[j]) by {
            assert(before[j] == s[j]);
        }
        assert(before[i] == s[i]);
        lemma_only_one(before, p, i);
        assert(!p(s[s.len() - 1]));
    } else {
        assert forall|j: int| 0 <= j < before.len() implies !p(#[trigger] before[j]) by {
            assert(before[j] == s[j]);
        }
        lemma_none(before, p);
        assert(s.filter(p) =~= seq![s[i]]);
    }
}

proof fn lemma_none<T>(s: Seq<T>, p: spec_fn(T) -> bool)
    requires
        forall|j: int| 0 <= j < s.len() ==> !p(#[trigger] s[j]),
    ensures
        s.filter(p).len() == 0,
    decreases s.len(),
{
    reveal(Seq::filter);
    if s.len() > 0 {
        let before = s.drop_last();
        assert forall|j: int| 0 <= j < before.len() implies !p(#[trigger] before[j]) by {
            assert(before[j] == s[j]);
        }
        lemma_none(before, p);
        assert(!p(s[s.len() - 1]));
    }
}

/// A device is the keyboard on a bus exactly if its bus number, its ids with four hexadecimal digits
/// and its port could be read and are as asked for.
pub proof fn law_keyboard_by_ids(d: SysfsUsbDevice, bus: nat, vendor: u16, product: u16)
    ensures
        is_keyboard_on(d, bus, (vendor, product)) <==> d.busnum is Some && d.busnum->0@
            == crate::text::decimal(bus) && d.id_vendor is Some && d.id_vendor->0@ == hex4(vendor)
            && d.id_product is Some && d.id_product->0@ == hex4(product) && d.devpath is Some,
{
}

/// The port of the only keyboard on the bus is found by its ids, whatever its device number; without
/// a keyboard there, or without known ids, none is.
pub proof fn law_port_by_ids(
    devices: Seq<SysfsUsbDevice>,
    ids: (u16, u16),
    bus: nat,
    address: u8,
    i: int,
)
    requires
        bus <= 255,
    ensures
        devpath_by_ids(devices, None, crate::text::decimal(bus), address) is None,
        0 <= i < devices.len() && is_keyboard_on(devices[i], bus, ids) && (forall|j: int|
            0 <= j < devices.len() && j != i ==> !is_keyboard_on(#[trigger] devices[j], bus, ids))
            ==> devpath_by_ids(devices, Some(ids), crate::text::decimal(bus), address) == Some(
            devices[i].devpath->0@,
        ),
        (forall|j: int|
            0 <= j < devices.len() ==> !is_keyboard_on(#[trigger] devices[j], bus, ids))
            ==> devpath_by_ids(devices, Some(ids), crate::text::decimal(bus), address) is None,
{
    law_bus_numbers(bus);
    let p = |d: SysfsUsbDevice| is_keyboard_on(d, bus, ids);
    if 0 <= i < devices.len() && is_keyboard_on(devices[i], bus, ids) && (forall|j: int|
        0 <= j < devices.len() && j != i ==> !is_keyboard_on(#[trigger] devices[j], bus, ids)) {
        assert forall|j: int| 0 <= j < devices.len() && j != i implies !p(#[trigger] devices[j]) by {}
        lemma_only_one(devices, p, i);
        assert(devices.filter(p)[0] == devices[i]);
    }
    if forall|j: int| 0 <= j < devices.len() ==> !is_keyboard_on(#[trigger] devices[j], bus, ids) {
        assert forall|j: int| 0 <= j < devices.len() implies !p(#[trigger] devices[j]) by {}
        lemma_none(devices, p);
    }
}

/// A port that was found decides; else the devices are read again 40 milliseconds later, 25 times in
/// all, and then the ids are looked for.
pub proof fn law_lookup_is_repeated(
    ports: UsbKeyboardPortsView,
    devices: Seq<SysfsUsbDevice>,
    bus_id: Seq<char>,
    address: u8,
    attempt: u32,
)
    ensures
        devpath_by_address(devices, bus_id, address) matches Some(devpath) ==> lookup_step(
            ports,
            devices,
            bus_id,
            address,
            attempt,
        ) == DockLookup::Done(ports.is_dock(devpath)),
        devpath_by_address(devices, bus_id, address) is None && attempt < 24 ==> lookup_step(
            ports,
            devices,
            bus_id,
            address,
            attempt,
        ) == (DockLookup::Retry { delay_ms: 40 }),
        devpath_by_address(devices, bus_id, address) is None && attempt >= 24 ==> lookup_step(
            ports,
            devices,
            bus_id,
            address,
            attempt,
        ) == DockLookup::FindByIds,
{
}

proof fn lemma_first_of_filtered<T>(
    s: Seq<T>,
    p: spec_fn(T) -> bool,
    q: spec_fn(T) -> bool,
    i: int,
)
    requires
        0 <= i < s.len(),
        p(s[i]),
        q(s[i]),
        forall|j: int| 0 <= j < i ==> !(p(#[trigger] s[j]) && q(s[j])),
    ensures
        crate::seqs::first_where(s.filter(p), q) == Some(s[i]),
        s.filter(p).contains(s[i]),
{
    let head = s.take(i);
    let tail = s.skip(i + 1);
    let one = seq![s[i]];
    assert(s =~= head + one + tail);
    Seq::filter_distributes_over_add(head + one, tail, p);
    Seq::filter_distributes_over_add(head, one, p);
    assert(one.filter(p) =~= one) by {
        reveal(Seq::filter);
        assert(one.drop_last() =~= Seq::empty());
        assert(one.last() == s[i]);
    }
    let kept = head.filter(p);
    let all = s.filter(p);
    assert(all =~= kept + one + tail.filter(p));
    head.filter_lemma(p);
    assert(all[kept.len() as int] == s[i]);
    assert forall|j: int| 0 <= j < kept.len() implies !q(#[trigger] all[j]) by {
        assert(all[j] == kept[j]);
        assert(p(kept[j]));
        assert(kept.contains(kept[j]));
        head.lemma_filter_contains_rev(p, kept[j]);
        let k = choose|k: int| 0 <= k < head.len() && head[k] == kept[j];
        assert(head[k] == s[k]);
    }
    crate::seqs::lemma_first_where_found(all, q, kept.len() as int);
}

/// Among several keyboards on the bus the first one with the device number asked for counts.
pub proof fn law_port_of_one_of_several(
    devices: Seq<SysfsUsbDevice>,
    ids: (u16, u16),
    bus: nat,
    address: u8,
    i: int,
)
    requires
        bus <= 255,
        0 <= i < devices.len(),
        is_keyboard_on(devices[i], bus, ids),
        devices[i].devnum is Some,
        devices[i].devnum->0@ == crate::text::decimal(address as nat),
        forall|j: int|
            0 <= j < i ==> !(is_keyboard_on(#[trigger] devices[j], bus, ids)
                && devices[j].devnum is Some && devices[j].devnum->0@ == crate::text::decimal(
                address as nat,
            )),
    ensures
        devpath_by_ids(devices, Some(ids), crate::text::decimal(bus), address) == Some(
            devices[i].devpath->0@,
        ),
{
    law_bus_numbers(bus);
    let p = |d: SysfsUsbDevice| is_keyboard_on(d, bus, ids);
    let q = |d: SysfsUsbDevice| numbered(d, address);
    assert forall|j: int| 0 <= j < i implies !(p(#[trigger] devices[j]) && q(devices[j])) by {}
    lemma_first_of_filtered(devices, p, q, i);
    let found = devices.filter(p);
    if found.len() == 1 {
        let k = choose|k: int| 0 <= k < found.len() && found[k] == devices[i];
        assert(found[0] == devices[i]);
    }
}

} // verus!
