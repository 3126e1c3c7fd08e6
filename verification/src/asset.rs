//! Asset storage: values kept under small integer handles.

use std::collections::HashMap;
use std::marker::PhantomData;
use vstd::prelude::*;
use crate::material::Material;
use crate::shader::OpenGLShader;
use crate::vertex_array::OpenGLVertexArray;

verus! {

/// A handle to an asset of type `T`.
#[derive(Debug)]
pub struct AssetPtr<T> {
    id: u32,
    pd: PhantomData<T>,
}

impl<T> AssetPtr<T> {
    /// The number that the handle stands for.
    pub closed spec fn id(&self) -> u32 {
        self.id
    }

    /// Returns the number that the handle stands for.
    pub fn get_id(&self) -> (id: u32)
        ensures
            id == self.id(),
    {
        self.id
    }
}

impl<T> Clone for AssetPtr<T> {
    /// A handle to the same asset.
    fn clone(&self) -> (copy: Self)
        ensures
            copy.id() == self.id(),
    {
        AssetPtr { id: self.id, pd: PhantomData }
    }
}

/// The assets of one type, by the number of their handle.
pub struct AssetStorage<T> {
    storage_map: HashMap<u32, T>,
}

impl<T> View for AssetStorage<T> {
    type V = Map<u32, T>;

    closed spec fn view(&self) -> Map<u32, T> {
        self.storage_map@
    }
}

/// `HashMap::get_mut`: a mutable reference to the value that `map` holds
/// under `id`, or `None` where it holds none.
///
/// Not proved: that the reference is to the value under `id`, that what is
/// written through it is what the map holds under `id` afterwards, and that
/// the map is otherwise left as it was.
#[verifier::external_body]
fn value_mut<T>(map: &mut HashMap<u32, T>, id: u32) -> (found: Option<&mut T>)
    ensures
        match found {
            Some(value) => old(map)@.contains_key(id) && *value == old(map)@[id] && final(map)@
                == old(map)@.insert(id, *final(value)),
            None => !old(map)@.contains_key(id) && final(map)@ == old(map)@,
        },
{
    map.get_mut(&id)
}

impl<T> Default for AssetStorage<T> {
    /// An empty storage.
    fn default() -> (storage: Self)
        ensures
            storage@ == Map::<u32, T>::empty(),
    {
        AssetStorage { storage_map: HashMap::new() }
    }
}

impl<T> AssetStorage<T> {
    /// Stores `asset` under the number of assets held, cut to 32 bits, and
    /// returns the handle. An asset already held under that number is
    /// replaced.
    pub fn put(&mut self, asset: T) -> (ptr: AssetPtr<T>)
        ensures
            ptr.id() == old(self)@.len() as u32,
            final(self)@ == old(self)@.insert(ptr.id(), asset),
    {
        broadcast use vstd::std_specs::hash::group_hash_axioms;

        let id: u32 = #[verifier::truncate]
        (self.storage_map.len() as u32);
        let ptr = AssetPtr { id, pd: PhantomData };
        self.storage_map.insert(id, asset);
        ptr
    }

    /// The asset behind the handle, if one is held.
    pub fn get_ref(&self, asset_ptr: &AssetPtr<T>) -> (found: Option<&T>)
        ensures
            match found {
                Some(asset) => self@.contains_key(asset_ptr.id()) && *asset == self@[asset_ptr.id()],
                None => !self@.contains_key(asset_ptr.id()),
            },
    {
        broadcast use vstd::std_specs::hash::group_hash_axioms;

        self.storage_map.get(&asset_ptr.id)
    }

    /// The asset behind the handle, to be changed in place, if one is held.
    pub fn get_ref_mut(&mut self, asset_ptr: &AssetPtr<T>) -> (found: Option<&mut T>)
        ensures
            match found {
                Some(asset) => old(self)@.contains_key(asset_ptr.id()) && *asset
                    == old(self)@[asset_ptr.id()] && final(self)@ == old(self)@.insert(
                    asset_ptr.id(),
                    *final(asset),
                ),
                None => !old(self)@.contains_key(asset_ptr.id()) && final(self)@ == old(self)@,
            },
    {
        value_mut(&mut self.storage_map, asset_ptr.id)
    }

    /// Takes the asset behind the handle out of the storage, if one is held.
    pub fn remove(&mut self, asset_ptr: &AssetPtr<T>) -> (taken: Option<T>)
        ensures
            match taken {
                Some(asset) => old(self)@.contains_key(asset_ptr.id()) && asset
                    == old(self)@[asset_ptr.id()],
                None => !old(self)@.contains_key(asset_ptr.id()),
            },
            final(self)@ == old(self)@.remove(asset_ptr.id()),
    {
        broadcast use vstd::std_specs::hash::group_hash_axioms;

        self.storage_map.remove(&asset_ptr.id)
    }
}

/// The assets of the engine as contracts see them.
pub struct AssetHolderView {
    pub vertex_array: Map<u32, OpenGLVertexArray>,
    pub shader: Map<u32, OpenGLShader>,
    pub material: Map<u32, Material>,
}

/// The assets of the engine: one storage for each type of asset.
pub struct AssetHolder {
    vertex_array: AssetStorage<OpenGLVertexArray>,
    shader: AssetStorage<OpenGLShader>,
    material: AssetStorage<Material>,
}

impl View for AssetHolder {
    type V = AssetHolderView;

    closed spec fn view(&self) -> AssetHolderView {
        AssetHolderView {
            vertex_array: self.vertex_array@,
            shader: self.shader@,
            material: self.material@,
        }
    }
}

impl Default for AssetHolder {
    /// A holder without assets.
    fn default() -> (holder: Self)
        ensures
            holder@ == (AssetHolderView {
                vertex_array: Map::empty(),
                shader: Map::empty(),
                material: Map::empty(),
            }),
    {
        AssetHolder {
            vertex_array: AssetStorage::default(),
            shader: AssetStorage::default(),
            material: AssetStorage::default(),
        }
    }
}

/// A type of asset: says which storage of the holder keeps the assets of the
/// type.
pub trait AssetMarker: Sized {
    /// The assets of this type among `assets`.
    spec fn selected(assets: AssetHolderView) -> Map<u32, Self>;

    /// `assets` with `stored` for the assets of this type.
    spec fn with_selected(assets: AssetHolderView, stored: Map<u32, Self>) -> AssetHolderView;

    /// The storage of the assets of this type.
    fn select_storage(holder: &AssetHolder) -> (storage: &AssetStorage<Self>)
        ensures
            storage@ == Self::selected(holder@),
    ;

    /// The storage of the assets of this type, to be changed in place; the
    /// other storages stay as they are.
    fn select_storage_mut(holder: &mut AssetHolder) -> (storage: &mut AssetStorage<Self>)
        ensures
            storage@ == Self::selected(old(holder)@),
            final(holder)@ == Self::with_selected(old(holder)@, final(storage)@),
    ;
}

impl AssetMarker for OpenGLVertexArray {
    open spec fn selected(assets: AssetHolderView) -> Map<u32, Self> {
        assets.vertex_array
    }

    open spec fn with_selected(assets: AssetHolderView, stored: Map<u32, Self>) -> AssetHolderView {
        AssetHolderView { vertex_array: stored, ..assets }
    }

    fn select_storage(holder: &AssetHolder) -> (storage: &AssetStorage<Self>) {
        &holder.vertex_array
    }

    fn select_storage_mut(holder: &mut AssetHolder) -> (storage: &mut AssetStorage<Self>) {
        &mut holder.vertex_array
    }
}

impl AssetMarker for OpenGLShader {
    open spec fn selected(assets: AssetHolderView) -> Map<u32, Self> {
        assets.shader
    }

    open spec fn with_selected(assets: AssetHolderView, stored: Map<u32, Self>) -> AssetHolderView {
        AssetHolderView { shader: stored, ..assets }
    }

    fn select_storage(holder: &AssetHolder) -> (storage: &AssetStorage<Self>) {
        &holder.shader
    }

    fn select_storage_mut(holder: &mut AssetHolder) -> (storage: &mut AssetStorage<Self>) {
        &mut holder.shader
    }
}

impl AssetMarker for Material {
    open spec fn selected(assets: AssetHolderView) -> Map<u32, Self> {
        assets.material
    }

    open spec fn with_selected(assets: AssetHolderView, stored: Map<u32, Self>) -> AssetHolderView {
        AssetHolderView { material: stored, ..assets }
    }

    fn select_storage(holder: &AssetHolder) -> (storage: &AssetStorage<Self>) {
        &holder.material
    }

    fn select_storage_mut(holder: &mut AssetHolder) -> (storage: &mut AssetStorage<Self>) {
        &mut holder.material
    }
}

impl AssetHolder {
    /// The storage of the assets of type `T`.
    pub fn storage<T: AssetMarker>(&self) -> (storage: &AssetStorage<T>)
        ensures
            storage@ == T::selected(self@),
    {
        T::select_storage(self)
    }

    /// The storage of the assets of type `T`, to be changed in place; the
    /// other storages stay as they are.
    pub fn storage_mut<T: AssetMarker>(&mut self) -> (storage: &mut AssetStorage<T>)
        ensures
            storage@ == T::selected(old(self)@),
            final(self)@ == T::with_selected(old(self)@, final(storage)@),
    {
        T::select_storage_mut(self)
    }
}

} // verus!
