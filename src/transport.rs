//! Decisions of the USB transport that do not touch the bus.
//!
//! Opening a printer walks the active configuration's descriptors and picks
//! the bulk endpoints to write to and read from. The walk itself, over plain
//! descriptor values, is here; reading the descriptors from the device is
//! the caller's part.
use vstd::prelude::*;

verus! {

/// The vendor id of Bixolon.
pub const BIXOLON_VENDOR_ID: u16 = 0x1504;

/// The product id of the SRP-350plus.
pub const SRP350PLUS_PRODUCT_ID: u16 = 0x0006;

/// One endpoint of an alternate setting, as its descriptor lists it.
#[derive(Debug, Clone, Copy, PartialEq, Eq, Structural)]
pub struct EndpointInfo {
    /// The number of the interface that the setting belongs to.
    pub interface_number: u8,
    /// Whether the endpoint uses bulk transfers.
    pub bulk: bool,
    /// Whether data flows from host to device (OUT).
    pub host_to_device: bool,
    /// The endpoint address.
    pub address: u8,
}

/// What a walk over the descriptors has found so far.
#[derive(Debug, Clone, Copy, PartialEq, Eq, Structural)]
pub struct EndpointScan {
    /// The last bulk OUT endpoint seen.
    pub write: Option<u8>,
    /// The last bulk IN endpoint seen.
    pub read: Option<u8>,
    /// The interface of the last bulk OUT endpoint seen (0 before any).
    pub interface_number: u8,
}

/// The bulk endpoints chosen for printing.
#[derive(Debug, Clone, Copy, PartialEq, Eq, Structural)]
pub struct BulkEndpoints {
    /// The bulk OUT endpoint that commands are written to.
    pub write: u8,
    /// The bulk IN endpoint that status is read from.
    pub read: u8,
    /// The interface of the write endpoint, to claim.
    pub interface_number: u8,
}

/// Why no pair of bulk endpoints was found.
#[derive(Debug, Clone, Copy, PartialEq, Eq, Structural)]
pub enum EndpointError {
    /// No bulk OUT endpoint.
    NoWriteEndpoint,
    /// No bulk IN endpoint.
    NoReadEndpoint,
}

impl EndpointScan {
    /// Nothing found yet.
    pub open spec fn start() -> EndpointScan {
        EndpointScan { write: None, read: None, interface_number: 0 }
    }

    /// Both a write and a read endpoint have been found.
    pub open spec fn complete(self) -> bool {
        self.write is Some && self.read is Some
    }

    /// The walk after one more endpoint: a bulk OUT endpoint becomes the
    /// write endpoint (and its interface the one to claim), a bulk IN one
    /// the read endpoint; other endpoints change nothing.
    pub open spec fn step(self, e: EndpointInfo) -> EndpointScan {
        if !e.bulk {
            self
        } else if e.host_to_device {
            EndpointScan { write: Some(e.address), interface_number: e.interface_number, ..self }
        } else {
            EndpointScan { read: Some(e.address), ..self }
        }
    }
}

/// The walk over the first `k` endpoints of one alternate setting.
pub open spec fn scan_setting(s: EndpointScan, eps: Seq<EndpointInfo>, k: int) -> EndpointScan
    decreases k,
{
    if k <= 0 {
        s
    } else {
        scan_setting(s, eps, k - 1).step(eps[k - 1])
    }
}

/// The walk over the first `k` alternate settings, in order; it stops
/// after the first setting at whose end both endpoints have been found.
pub open spec fn scan_settings(settings: Seq<Seq<EndpointInfo>>, k: int) -> EndpointScan
    decreases k,
{
    if k <= 0 {
        EndpointScan::start()
    } else {
        let s = scan_settings(settings, k - 1);
        if s.complete() {
            s
        } else {
            scan_setting(s, settings[k - 1], settings[k - 1].len() as int)
        }
    }
}

/// The outcome of choosing bulk endpoints from a walk's result.
pub open spec fn endpoints_of(s: EndpointScan) -> Result<BulkEndpoints, EndpointError> {
    match (s.write, s.read) {
        (None, _) => Err(EndpointError::NoWriteEndpoint),
        (Some(_), None) => Err(EndpointError::NoReadEndpoint),
        (Some(w), Some(r)) => Ok(BulkEndpoints { write: w, read: r, interface_number: s.interface_number }),
    }
}

/// Chooses the bulk endpoints to print through, from the alternate settings
/// of the active configuration in descriptor order (each a list of its
/// endpoints).
pub fn select_bulk_endpoints(settings: &Vec<Vec<EndpointInfo>>) -> (r: Result<BulkEndpoints, EndpointError>)
    ensures
        r == endpoints_of(scan_settings(settings@.map_values(|v: Vec<EndpointInfo>| v@), settings@.len() as int)),
{
    let ghost views = settings@.map_values(|v: Vec<EndpointInfo>| v@);
    let mut write: Option<u8> = None;
    let mut read: Option<u8> = None;
    let mut interface_number: u8 = 0;
    let mut i: usize = 0;
    while i < settings.len() && !(write.is_some() && read.is_some())
        invariant
            i <= settings@.len(),
            views == settings@.map_values(|v: Vec<EndpointInfo>| v@),
            views.len() == settings@.len(),
            (EndpointScan { write, read, interface_number }) == scan_settings(views, i as int),
        decreases settings@.len() - i,
    {
        let eps = &settings[i];
        assert(eps@ == views[i as int]);
        let ghost before = EndpointScan { write, read, interface_number };
        let mut j: usize = 0;
        while j < eps.len()
            invariant
                j <= eps@.len(),
                eps@ == views[i as int],
                (EndpointScan { write, read, interface_number }) == scan_setting(before, eps@, j as int),
            decreases eps@.len() - j,
        {
            let e = eps[j];
            if e.bulk {
                if e.host_to_device {
                    write = Some(e.address);
                    interface_number = e.interface_number;
                } else {
                    read = Some(e.address);
                }
            }
            j = j + 1;
        }
        i = i + 1;
    }
    proof {
        lemma_scan_stays_complete(views, i as int, settings@.len() as int);
    }
    match (write, read) {
        (None, _) => Err(EndpointError::NoWriteEndpoint),
        (Some(_), None) => Err(EndpointError::NoReadEndpoint),
        (Some(w), Some(r)) => Ok(BulkEndpoints { write: w, read: r, interface_number }),
    }
}

/// Once both endpoints are found, later settings change nothing.
proof fn lemma_scan_stays_complete(settings: Seq<Seq<EndpointInfo>>, i: int, k: int)
    requires
        0 <= i <= k,
        i == k || scan_settings(settings, i).complete(),
    ensures
        scan_settings(settings, k) == scan_settings(settings, i),
    decreases k - i,
{
    if k > i {
        lemma_scan_stays_complete(settings, i, k - 1);
    }
}

/// Whether a device with vendor id `vendor` and product id `product`
/// matches a search by vendor and, optionally, product.
pub fn device_matches(vendor: u16, product: u16, want_vendor: u16, want_product: Option<u16>) -> (r: bool)
    ensures
        r == (vendor == want_vendor && match want_product {
            Some(p) => product == p,
            None => true,
        }),
{
    vendor == want_vendor && match want_product {
        Some(p) => product == p,
        None => true,
    }
}

} // verus!
