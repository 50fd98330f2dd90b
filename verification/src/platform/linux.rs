//! Linux under X11: window ids and titles come from window properties as
//! raw bytes.

use vstd::prelude::*;
use vstd::string::StringExecFns;
use vstd::utf8::{valid_utf8, decode_utf8};
use crate::text::string_from_utf8;
use crate::text::is_substring;
use super::{keep_nonempty, lemma_matching_title_is_listed, lemma_read_text_is_kept, opt_text, spec_kept_texts, spec_title_matches, title_matches};

verus! {

/// The Linux platform.
pub struct LinuxPlatform;

/// The value of four bytes read as a little-endian number.
pub open spec fn spec_le_u32(b: Seq<u8>) -> int {
    b[0] as int + b[1] as int * 0x100 + b[2] as int * 0x10000 + b[3] as int * 0x1000000
}

/// The value of four bytes read as a big-endian number.
pub open spec fn spec_be_u32(b: Seq<u8>) -> int {
    b[3] as int + b[2] as int * 0x100 + b[1] as int * 0x10000 + b[0] as int * 0x1000000
}

/// `v` is what four bytes in the machine's byte order stand for: the
/// little-endian or the big-endian reading.
pub open spec fn spec_native_u32(b: Seq<u8>, v: u32) -> bool {
    v == spec_le_u32(b) || v == spec_be_u32(b)
}

/// The order in which a machine stores the bytes of a number.
#[derive(Clone, Copy, PartialEq, Eq, Structural, Debug)]
pub enum ByteOrder {
    Little,
    Big,
}

/// The value of four bytes read in `order`.
pub open spec fn spec_read_u32(order: ByteOrder, b: Seq<u8>) -> int {
    match order {
        ByteOrder::Little => spec_le_u32(b),
        ByteOrder::Big => spec_be_u32(b),
    }
}

/// Calls `u32::from_ne_bytes`. The byte order is the machine's, so the
/// contract says only that the result is the little-endian or the
/// big-endian reading of the bytes; which of the two is left unsaid.
#[verifier::external_body]
fn u32_from_ne_bytes(bytes: [u8; 4]) -> (v: u32)
    ensures
        spec_native_u32(bytes@, v),
{
    u32::from_ne_bytes(bytes)
}

/// The value of four bytes read in `order`.
pub fn read_u32(b0: u8, b1: u8, b2: u8, b3: u8, order: ByteOrder) -> (v: u32)
    ensures
        v == spec_read_u32(order, seq![b0, b1, b2, b3]),
{
    match order {
        ByteOrder::Little => b0 as u32 + b1 as u32 * 0x100 + b2 as u32 * 0x10000 + b3 as u32
            * 0x1000000,
        ByteOrder::Big => b3 as u32 + b2 as u32 * 0x100 + b1 as u32 * 0x10000 + b0 as u32
            * 0x1000000,
    }
}

/// The text a title property holds, if it was read and is valid UTF-8.
pub open spec fn spec_decoded(value: Option<Seq<u8>>) -> Option<Seq<char>> {
    match value {
        Some(b) => if valid_utf8(b) {
            Some(decode_utf8(b))
        } else {
            None
        },
        None => None,
    }
}

/// The window list made of the clients' title properties: each title that
/// was read, is valid UTF-8 and is not empty, in the order of the clients.
pub open spec fn spec_client_titles(values: Seq<Option<Seq<u8>>>) -> Seq<Seq<char>> {
    spec_kept_texts(values.map_values(|v: Option<Seq<u8>>| spec_decoded(v)))
}

/// How far the X server answered the request for the window list.
pub enum X11Listing {
    /// No connection to an X server could be made.
    NoServer,
    /// The needed atoms or the client list could not be read.
    NoClientList,
    /// The title property of each client, in the order of the client list;
    /// none where it could not be read.
    Clients(Vec<Option<Vec<u8>>>),
}

/// The error text when no X server answers.
pub open spec fn spec_no_server() -> Seq<char> {
    "Failed to connect to X11 server. Wayland is not yet supported."@
}

/// The error text when the client list cannot be read.
pub open spec fn spec_no_client_list() -> Seq<char> {
    "Failed to enumerate X11 windows"@
}

impl LinuxPlatform {
    /// The order in which this machine stores the bytes of a number, as
    /// `u32::from_ne_bytes` shows it on one sample; X11 property values
    /// arrive in that order.
    pub fn native_byte_order() -> (o: ByteOrder) {
        let v = u32_from_ne_bytes([1u8, 0u8, 0u8, 0u8]);
        if v == 1 {
            ByteOrder::Little
        } else {
            ByteOrder::Big
        }
    }

    /// The window ids in a `_NET_CLIENT_LIST` property value whose numbers
    /// are stored in `order`: one per whole group of four bytes; trailing
    /// bytes that make no whole group are dropped.
    pub fn window_ids_in_order(value: &Vec<u8>, order: ByteOrder) -> (ids: Vec<u32>)
        ensures
            ids@.len() == value@.len() / 4,
            forall|i: int|
                0 <= i < ids@.len() ==> ids@[i] == spec_read_u32(
                    order,
                    #[trigger] value@.subrange(4 * i, 4 * i + 4),
                ),
    {
        let n = value.len();
        let count = n / 4;
        let mut ids: Vec<u32> = Vec::new();
        let mut i: usize = 0;
        while i < count
            invariant
                n == value@.len(),
                count == n / 4,
                i <= count,
                ids@.len() == i,
                forall|k: int|
                    0 <= k < i ==> ids@[k] == spec_read_u32(
                        order,
                        #[trigger] value@.subrange(4 * k, 4 * k + 4),
                    ),
            decreases count - i,
        {
            assert(4 * i + 4 <= n) by (nonlinear_arith)
                requires
                    i < count,
                    count == n / 4,
            ;
            let at = 4 * i;
            let id = read_u32(value[at], value[at + 1], value[at + 2], value[at + 3], order);
            assert(seq![value@[at as int], value@[at + 1], value@[at + 2], value@[at + 3]]
                =~= value@.subrange(4 * i as int, 4 * i as int + 4));
            ids.push(id);
            i = i + 1;
        }
        ids
    }

    /// The window ids in a `_NET_CLIENT_LIST` property value, read in this
    /// machine's byte order: all of them little-endian or all of them
    /// big-endian.
    pub fn window_ids_from_property(value: &Vec<u8>) -> (ids: Vec<u32>)
        ensures
            ids@.len() == value@.len() / 4,
            (forall|i: int|
                0 <= i < ids@.len() ==> ids@[i] == spec_le_u32(
                    #[trigger] value@.subrange(4 * i, 4 * i + 4),
                )) || (forall|i: int|
                0 <= i < ids@.len() ==> ids@[i] == spec_be_u32(
                    #[trigger] value@.subrange(4 * i, 4 * i + 4),
                )),
    {
        let order = Self::native_byte_order();
        Self::window_ids_in_order(value, order)
    }

    /// The active window in a `_NET_ACTIVE_WINDOW` property value whose
    /// numbers are stored in `order`: the first four bytes; none when there
    /// are fewer than four.
    pub fn active_window_in_order(value: &Vec<u8>, order: ByteOrder) -> (r: Option<u32>)
        ensures
            r is Some <==> value@.len() >= 4,
            r matches Some(w) ==> w == spec_read_u32(order, value@.subrange(0, 4)),
    {
        if value.len() >= 4 {
            let w = read_u32(value[0], value[1], value[2], value[3], order);
            assert(seq![value@[0], value@[1], value@[2], value@[3]] =~= value@.subrange(0, 4));
            Some(w)
        } else {
            None
        }
    }

    /// The active window in a `_NET_ACTIVE_WINDOW` property value, read in
    /// this machine's byte order; none when there are fewer than four bytes.
    pub fn active_window_from_property(value: &Vec<u8>) -> (r: Option<u32>)
        ensures
            r is Some <==> value@.len() >= 4,
            r matches Some(w) ==> spec_native_u32(value@.subrange(0, 4), w),
    {
        let order = Self::native_byte_order();
        Self::active_window_in_order(value, order)
    }

    /// The title a `_NET_WM_NAME` property holds, if it was read and is
    /// valid UTF-8.
    pub fn decode_title(value: &Option<Vec<u8>>) -> (r: Option<String>)
        ensures
            opt_text(r) == spec_decoded(value.deep_view()),
    {
        match value {
            Some(b) => {
                let c = b.clone();
                assert(c@ =~= b@);
                assert(b.deep_view() =~= b@);
                string_from_utf8(c)
            },
            None => None,
        }
    }

    /// The window list made of the clients' title properties.
    pub fn titles_from_properties(values: &Vec<Option<Vec<u8>>>) -> (r: Vec<String>)
        ensures
            r.deep_view() == spec_client_titles(values.deep_view()),
    {
        let mut decoded: Vec<Option<String>> = Vec::new();
        let mut i: usize = 0;
        while i < values.len()
            invariant
                i <= values@.len(),
                decoded.deep_view() =~= values.deep_view().take(i as int).map_values(
                    |v: Option<Seq<u8>>| spec_decoded(v),
                ),
            decreases values@.len() - i,
        {
            let t = Self::decode_title(&values[i]);
            let ghost before = decoded.deep_view();
            decoded.push(t);
            assert(decoded.deep_view() =~= before.push(opt_text(t)));
            i = i + 1;
        }
        assert(values.deep_view().take(i as int) =~= values.deep_view());
        keep_nonempty(&decoded)
    }

    /// The outcome of the window list request as the command reports it.
    pub fn list_windows(outcome: &X11Listing) -> (r: Result<Vec<String>, String>)
        ensures
            match outcome {
                X11Listing::NoServer => r matches Err(e) && e@ == spec_no_server(),
                X11Listing::NoClientList => r matches Err(e) && e@ == spec_no_client_list(),
                X11Listing::Clients(values) => r matches Ok(titles) && titles.deep_view()
                    == spec_client_titles(values.deep_view()),
            },
    {
        match outcome {
            X11Listing::NoServer => Err(
                String::from_str("Failed to connect to X11 server. Wayland is not yet supported."),
            ),
            X11Listing::NoClientList => Err(String::from_str("Failed to enumerate X11 windows")),
            X11Listing::Clients(values) => Ok(Self::titles_from_properties(values)),
        }
    }

    /// Whether the active window's title property, if it was read and is
    /// valid UTF-8, contains `target`.
    pub fn focused_title_matches(title_value: &Option<Vec<u8>>, target: &str) -> (r: bool)
        ensures
            r == spec_title_matches(spec_decoded(title_value.deep_view()), target@),
    {
        let title = Self::decode_title(title_value);
        title_matches(&title, target)
    }
}

/// A client whose title contains a non-empty target, as the focus and
/// cursor checks read it, is in the window list: the list holds a title
/// containing the target.
pub proof fn lemma_matching_client_is_listed(values: Seq<Option<Seq<u8>>>, j: int, target: Seq<char>)
    requires
        0 <= j < values.len(),
        target.len() > 0,
        spec_title_matches(spec_decoded(values[j]), target),
    ensures
        exists|k: int|
            0 <= k < spec_client_titles(values).len() && is_substring(
                #[trigger] spec_client_titles(values)[k],
                target,
            ),
{
    let items = values.map_values(|v: Option<Seq<u8>>| spec_decoded(v));
    assert(items[j] == spec_decoded(values[j]));
    lemma_matching_title_is_listed(items, j, target);
    assert(spec_client_titles(values) == spec_kept_texts(items));
    let k = choose|k: int|
        0 <= k < spec_kept_texts(items).len() && is_substring(
            #[trigger] spec_kept_texts(items)[k],
            target,
        );
    assert(is_substring(spec_client_titles(values)[k], target));
}

/// A title property decodes to its UTF-8 text whenever it was read and is
/// valid UTF-8, whatever its length; an unreadable or invalid property has no
/// title.
pub proof fn lemma_decoded_exactly(b: Seq<u8>)
    ensures
        valid_utf8(b) ==> spec_decoded(Some(b)) == Some(decode_utf8(b)),
        !valid_utf8(b) ==> spec_decoded(Some(b)) is None,
        spec_decoded(None) is None,
{
}

/// Every client whose title property is valid UTF-8 and decodes to a
/// non-empty text is in the window list, whatever the title's length.
pub proof fn lemma_valid_client_title_is_listed(values: Seq<Option<Seq<u8>>>, j: int)
    requires
        0 <= j < values.len(),
        values[j] is Some,
        valid_utf8(values[j]->0),
        decode_utf8(values[j]->0).len() > 0,
    ensures
        spec_client_titles(values).contains(decode_utf8(values[j]->0)),
{
    let items = values.map_values(|v: Option<Seq<u8>>| spec_decoded(v));
    assert(items[j] == spec_decoded(values[j]));
    lemma_read_text_is_kept(items, j);
    assert(spec_client_titles(values) == spec_kept_texts(items));
}

/// Reading four bytes little-endian is reading them reversed big-endian,
/// and a lone low byte reads as itself little-endian.
pub proof fn lemma_byte_orders_mirror(b0: u8, b1: u8, b2: u8, b3: u8)
    ensures
        spec_read_u32(ByteOrder::Little, seq![b0, b1, b2, b3]) == spec_read_u32(
            ByteOrder::Big,
            seq![b3, b2, b1, b0],
        ),
        spec_read_u32(ByteOrder::Little, seq![b0, 0u8, 0u8, 0u8]) == b0,
        spec_read_u32(ByteOrder::Big, seq![0u8, 0u8, 0u8, b3]) == b3,
        spec_read_u32(ByteOrder::Little, seq![b0, b1, b2, b3]) == b0 + 256 * b1 + 65536 * b2
            + 16777216 * b3,
{
}

} // verus!
