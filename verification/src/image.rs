//! Image sources for menu items. An `Image` describes where the native image
//! comes from; the native side resolves it on demand, each time an item is
//! converted, with no caching across conversions.

use std::sync::Arc;
use vstd::prelude::*;

verus! {

/// An image for a menu item, by source:
/// - `Static`: process-lifetime bytes, wrapped without copying;
/// - `Native`: a previously obtained native image handle, passed through;
/// - `CopyOnPass`: shared bytes, defensively copied when handed to the
///   native side;
/// - `Named`: a bundle-asset lookup by name (fatal natively if absent);
/// - `SystemSymbol`: a system-symbol lookup by name (fatal natively if
///   absent).
#[derive(Clone, Debug)]
pub enum Image {
    Static(&'static [u8]),
    Native(u64),
    CopyOnPass(Arc<Vec<u8>>),
    Named(String),
    SystemSymbol(String),
}

/// The resolution an image source asks of the native side: which lookup or
/// byte-buffer construction produces the native image.
pub ghost enum ImageModel {
    BytesNoCopy(Seq<u8>),
    Handle(u64),
    BytesCopied(Seq<u8>),
    Named(Seq<char>),
    Symbol(Seq<char>),
}

impl Image {
    /// The resolution strategy this source selects, with the plain values it
    /// hands to the native call.
    pub open spec fn model(&self) -> ImageModel {
        match self {
            Image::Static(bytes) => ImageModel::BytesNoCopy(bytes@),
            Image::Native(handle) => ImageModel::Handle(*handle),
            Image::CopyOnPass(bytes) => ImageModel::BytesCopied(bytes@),
            Image::Named(name) => ImageModel::Named(name@),
            Image::SystemSymbol(name) => ImageModel::Symbol(name@),
        }
    }

    /// An image looked up in the application bundle by name.
    pub fn from_app_bundle(name: &str) -> (r: Self)
        ensures
            r.model() == ImageModel::Named(name@),
    {
        Self::Named(name.to_owned())
    }

    /// A system-provided symbol image looked up by name.
    pub fn system_symbol(name: &str) -> (r: Self)
        ensures
            r.model() == ImageModel::Symbol(name@),
    {
        Self::SystemSymbol(name.to_owned())
    }

    /// An image over process-lifetime bytes; the data is never copied.
    pub fn from_bytes_static(bytes: &'static [u8]) -> (r: Self)
        ensures
            r.model() == ImageModel::BytesNoCopy(bytes@),
    {
        Self::Static(bytes)
    }

    /// An image over a previously obtained native image handle; conversion
    /// passes the handle through unchanged.
    pub fn from_native(handle: u64) -> (r: Self)
        ensures
            r.model() == ImageModel::Handle(handle),
    {
        Self::Native(handle)
    }

    /// An image whose bytes are shared between copies of the value and
    /// copied once when handed to the native side.
    pub fn from_bytes_copy_on_pass(bytes: &[u8]) -> (r: Self)
        ensures
            r.model() == ImageModel::BytesCopied(bytes@),
    {
        Self::CopyOnPass(Arc::new(vstd::slice::slice_to_vec(bytes)))
    }

    /// A copy of this image source that resolves exactly the same way;
    /// shared bytes stay shared, everything else is re-owned.
    pub fn duplicate(&self) -> (r: Self)
        ensures
            r.model() == self.model(),
    {
        match self {
            Image::Static(bytes) => Image::Static(*bytes),
            Image::Native(handle) => Image::Native(*handle),
            Image::CopyOnPass(bytes) => Image::CopyOnPass(arc_bytes_clone(bytes)),
            Image::Named(name) => Image::Named(name.clone()),
            Image::SystemSymbol(name) => Image::SystemSymbol(name.clone()),
        }
    }
}

/// Relies on `alloc::sync::Arc::clone`: the new handle shares the same
/// buffer, so it holds the same bytes.
#[verifier::external_body]
fn arc_bytes_clone(bytes: &Arc<Vec<u8>>) -> (r: Arc<Vec<u8>>)
    ensures
        r == *bytes,
{
    bytes.clone()
}

} // verus!
