//! The extensions that the driver lists, and how a caller reads the lists.
//!
//! There are two catalogues: the extensions of an instance and those of a
//! device. Neither changes while the driver runs. A caller reads a catalogue
//! with the two-call protocol and gets each entry in its wire form: the name
//! in a field of fixed size, closed by a zero.

use crate::result::VkResult;
use crate::text::str_eq;
use crate::two_call::{answer, fill_outcome, written};
use crate::vk;
use vstd::prelude::*;
use vstd::string::StringSliceAdditionalSpecFns;
use vstd::utf8::{encode_utf8, is_ascii_chars, is_ascii_chars_encode_utf8};

verus! {

/// What an extension is: its name and its revision.
pub struct ExtensionView {
    pub name: Seq<char>,
    pub spec_version: u32,
}

/// An entry of a catalogue.
#[derive(Clone, Copy, Debug)]
pub struct ExtensionProperties {
    extension_name: &'static str,
    spec_version: u32,
}

/// Why a name has no wire form.
#[derive(Clone, Copy, Debug, PartialEq, Eq, Structural)]
pub enum NameError {
    /// The name holds a zero byte, which would end it early.
    InteriorNul,
    /// The name and its closing zero do not fit the field.
    TooLong,
}

/// The extensions of an instance.
pub open spec fn instance_catalogue() -> Seq<ExtensionView> {
    seq![
        ExtensionView { name: "VK_KHR_surface"@, spec_version: 25 },
        ExtensionView { name: "VK_KHR_xcb_surface"@, spec_version: 5 },
    ]
}

/// The extensions of a device.
pub open spec fn device_catalogue() -> Seq<ExtensionView> {
    seq![ExtensionView { name: "VK_KHR_swapchain"@, spec_version: 67 }]
}

/// The catalogue that a query reads.
pub open spec fn catalogue(for_device: bool) -> Seq<ExtensionView> {
    if for_device {
        device_catalogue()
    } else {
        instance_catalogue()
    }
}

/// Whether a catalogue lists an extension of the given name.
pub open spec fn lists(catalogue: Seq<ExtensionView>, name: Seq<char>) -> bool {
    exists|i: int| 0 <= i < catalogue.len() && (#[trigger] catalogue[i]).name == name
}

/// The entries as name and revision, in order.
pub open spec fn views(entries: Seq<ExtensionProperties>) -> Seq<ExtensionView> {
    Seq::new(entries.len(), |i: int| entries[i]@)
}

/// Why the bytes of a name have no wire form, if they have none.
pub open spec fn encode_error(bytes: Seq<u8>) -> Option<NameError> {
    if bytes.contains(0u8) {
        Some(NameError::InteriorNul)
    } else if bytes.len() >= vk::MAX_EXTENSION_NAME_SIZE {
        Some(NameError::TooLong)
    } else {
        None
    }
}

/// The name field of the wire form: the bytes of the name, then zeros up to
/// the end of the field.
pub open spec fn wire_name(bytes: Seq<u8>) -> Seq<u8> {
    Seq::new(
        vk::MAX_EXTENSION_NAME_SIZE as nat,
        |i: int|
            if i < bytes.len() {
                bytes[i]
            } else {
                0u8
            },
    )
}

/// Whether `wire` is the wire form of `ext`.
pub open spec fn encodes(wire: vk::ExtensionProperties, ext: ExtensionView) -> bool {
    &&& wire.extension_name@ == wire_name(encode_utf8(ext.name))
    &&& wire.spec_version == ext.spec_version
}

/// Whether every entry has a wire form.
pub open spec fn all_encodable(catalogue: Seq<ExtensionView>) -> bool {
    forall|i: int|
        0 <= i < catalogue.len() ==> encode_error(encode_utf8((#[trigger] catalogue[i]).name))
            is None
}

impl View for ExtensionProperties {
    type V = ExtensionView;

    closed spec fn view(&self) -> ExtensionView {
        ExtensionView { name: self.extension_name@, spec_version: self.spec_version }
    }
}

impl ExtensionProperties {
    /// An entry with the given name and version.
    pub fn new(extension_name: &'static str, spec_version: u32) -> (r: ExtensionProperties)
        ensures
            r@ == (ExtensionView { name: extension_name@, spec_version }),
    {
        ExtensionProperties { extension_name, spec_version }
    }

    /// The name of the extension.
    pub fn name(&self) -> (r: &str)
        ensures
            r@ == self@.name,
    {
        self.extension_name
    }

    /// The revision of the extension.
    pub fn spec_version(&self) -> (r: u32)
        ensures
            r == self@.spec_version,
    {
        self.spec_version
    }

    /// The wire form of the entry, where its name has one.
    ///
    /// A name has a wire form when it holds no zero byte and leaves room for
    /// the closing zero. Nothing is cut off: a name that does not fit is an
    /// error.
    pub fn to_vk_ffi(&self) -> (r: Result<vk::ExtensionProperties, NameError>)
        ensures
            match r {
                Ok(wire) => encode_error(encode_utf8(self@.name)) is None && encodes(wire, self@),
                Err(e) => encode_error(encode_utf8(self@.name)) == Some(e),
            },
    {
        let bytes = self.extension_name.as_bytes();
        let n = bytes.len();
        let mut i: usize = 0;
        while i < n
            invariant
                i <= n,
                n == bytes@.len(),
                bytes@ == encode_utf8(self@.name),
                forall|j: int| 0 <= j < i ==> bytes@[j] != 0u8,
            decreases n - i,
        {
            if bytes[i] == 0 {
                return Err(NameError::InteriorNul);
            }
            i += 1;
        }
        if n >= vk::MAX_EXTENSION_NAME_SIZE {
            return Err(NameError::TooLong);
        }
        let mut field: [u8; 256] = [0u8; 256];
        let mut k: usize = 0;
        while k < n
            invariant
                k <= n,
                n == bytes@.len(),
                n < 256,
                forall|j: int| 0 <= j < k ==> field@[j] == bytes@[j],
                forall|j: int| k <= j < 256 ==> field@[j] == 0u8,
            decreases n - k,
        {
            field[k] = bytes[k];
            k += 1;
        }
        assert(field@ =~= wire_name(bytes@));
        Ok(vk::ExtensionProperties { extension_name: field, spec_version: self.spec_version })
    }
}

/// The entries of the instance catalogue.
pub fn available_extensions() -> (r: Vec<ExtensionProperties>)
    ensures
        views(r@) == instance_catalogue(),
{
    let mut entries: Vec<ExtensionProperties> = Vec::new();
    entries.push(ExtensionProperties::new("VK_KHR_surface", 25));
    entries.push(ExtensionProperties::new("VK_KHR_xcb_surface", 5));
    entries
}

/// The entries of the device catalogue.
pub fn available_device_extensions() -> (r: Vec<ExtensionProperties>)
    ensures
        views(r@) == device_catalogue(),
{
    let mut entries: Vec<ExtensionProperties> = Vec::new();
    entries.push(ExtensionProperties::new("VK_KHR_swapchain", 67));
    entries
}

/// Whether `entries` lists an extension called `name`.
pub fn find_extension(entries: &[ExtensionProperties], name: &str) -> (r: bool)
    ensures
        r == lists(views(entries@), name@),
{
    let n = entries.len();
    let mut i: usize = 0;
    while i < n
        invariant
            i <= n,
            n == entries@.len(),
            forall|j: int| 0 <= j < i ==> (#[trigger] views(entries@)[j]).name != name@,
        decreases n - i,
    {
        if str_eq(entries[i].name(), name) {
            assert(views(entries@)[i as int].name == name@);
            return true;
        }
        i += 1;
    }
    false
}

/// Whether the instance catalogue lists an extension called `name`.
pub fn is_available(name: &str) -> (r: bool)
    ensures
        r == lists(instance_catalogue(), name@),
{
    let entries = available_extensions();
    find_extension(entries.as_slice(), name)
}

/// A name of ASCII characters, none of them zero, that is shorter than the
/// name field has a wire form.
proof fn lemma_ascii_name_encodable(name: Seq<char>)
    requires
        is_ascii_chars(name),
        name.len() < vk::MAX_EXTENSION_NAME_SIZE,
        forall|i: int| 0 <= i < name.len() ==> name[i] != '\0',
    ensures
        encode_error(encode_utf8(name)) is None,
{
    is_ascii_chars_encode_utf8(name);
}

/// Every entry of the two catalogues has a wire form.
pub proof fn lemma_catalogues_encodable()
    ensures
        all_encodable(instance_catalogue()),
        all_encodable(device_catalogue()),
{
    reveal_strlit("VK_KHR_surface");
    reveal_strlit("VK_KHR_xcb_surface");
    reveal_strlit("VK_KHR_swapchain");
    let a = "VK_KHR_surface"@;
    let b = "VK_KHR_xcb_surface"@;
    let c = "VK_KHR_swapchain"@;
    lemma_ascii_name_encodable(a);
    lemma_ascii_name_encodable(b);
    lemma_ascii_name_encodable(c);
}

/// The wire forms of `entries`, in order.
fn wire_forms(entries: &[ExtensionProperties]) -> (r: Vec<vk::ExtensionProperties>)
    requires
        all_encodable(views(entries@)),
    ensures
        r@.len() == entries@.len(),
        forall|i: int| 0 <= i < r@.len() ==> encodes(#[trigger] r@[i], views(entries@)[i]),
{
    let n = entries.len();
    let mut wires: Vec<vk::ExtensionProperties> = Vec::new();
    let mut i: usize = 0;
    while i < n
        invariant
            i <= n,
            n == entries@.len(),
            wires@.len() == i,
            all_encodable(views(entries@)),
            forall|j: int| 0 <= j < i ==> encodes(#[trigger] wires@[j], views(entries@)[j]),
        decreases n - i,
    {
        assert(encode_error(encode_utf8(views(entries@)[i as int].name)) is None);
        match entries[i].to_vk_ffi() {
            Ok(wire) => {
                wires.push(wire);
            },
            Err(_) => {
                // Every entry has a wire form.
                assert(false);
            },
        }
        i += 1;
    }
    wires
}

/// Answers one call of the two-call protocol over a catalogue.
///
/// Without a buffer the count becomes the size of the catalogue. With one,
/// as many entries as the count asks for, and no more than there are, are
/// written to the front of the buffer in their wire form and in the
/// catalogue's order; the count becomes the number written; the outcome is
/// `Incomplete` where entries were left out, else `Success`.
pub fn enumerate_catalogue(
    entries: &[ExtensionProperties],
    property_count: &mut u32,
    properties: Option<&mut [vk::ExtensionProperties]>,
) -> (r: VkResult)
    requires
        entries@.len() <= u32::MAX,
        all_encodable(views(entries@)),
        properties matches Some(b) ==> b@.len() >= written(
            *old(property_count) as int,
            entries@.len() as int,
        ),
    ensures
        properties is None ==> r == VkResult::Success && *final(property_count) == entries@.len(),
        properties matches Some(b) ==> {
            let k = written(*old(property_count) as int, entries@.len() as int);
            &&& r == fill_outcome(*old(property_count) as int, entries@.len() as int)
            &&& *final(property_count) == k
            &&& final(b)@.len() == b@.len()
            &&& forall|i: int| 0 <= i < k ==> encodes(#[trigger] final(b)@[i], views(entries@)[i])
            &&& forall|i: int| k <= i < b@.len() ==> final(b)@[i] == b@[i]
        },
{
    let wires = wire_forms(entries);
    answer(wires.as_slice(), property_count, properties)
}

/// Lists the extensions of an instance, or those of a device where
/// `for_device` is set, by the two-call protocol.
///
/// The driver has no extensions that belong to a layer: a call that names a
/// layer and brings a buffer is answered `NotImplemented` and changes
/// nothing. A call without a buffer is answered with the size of the
/// catalogue whether it names a layer or not.
pub fn enumerate_extension_properties(
    layer_name: Option<&str>,
    property_count: &mut u32,
    properties: Option<&mut [vk::ExtensionProperties]>,
    for_device: bool,
) -> (r: VkResult)
    requires
        properties matches Some(b) ==> layer_name is None ==> b@.len() >= written(
            *old(property_count) as int,
            catalogue(for_device).len() as int,
        ),
    ensures
        properties is None ==> r == VkResult::Success && *final(property_count) == catalogue(
            for_device,
        ).len(),
        properties matches Some(b) ==> layer_name is Some ==> r == VkResult::NotImplemented
            && *final(property_count) == *old(property_count) && final(b)@ == b@,
        properties matches Some(b) ==> layer_name is None ==> {
            let all = catalogue(for_device);
            let k = written(*old(property_count) as int, all.len() as int);
            &&& r == fill_outcome(*old(property_count) as int, all.len() as int)
            &&& *final(property_count) == k
            &&& final(b)@.len() == b@.len()
            &&& forall|i: int| 0 <= i < k ==> encodes(#[trigger] final(b)@[i], all[i])
            &&& forall|i: int| k <= i < b@.len() ==> final(b)@[i] == b@[i]
        },
{
    let entries = if for_device {
        available_device_extensions()
    } else {
        available_extensions()
    };
    proof {
        lemma_catalogues_encodable();
    }
    match properties {
        None => enumerate_catalogue(entries.as_slice(), property_count, None),
        Some(buffer) => {
            if layer_name.is_none() {
                enumerate_catalogue(entries.as_slice(), property_count, Some(buffer))
            } else {
                VkResult::NotImplemented
            }
        },
    }
}

} // verus!
