//! Registry of loaded models and textures, found again by file name.
//!
//! Names are stored normalised: every non-ASCII character is folded into a
//! single byte-sized character (see `normalize_char`), so that names read
//! from archives in a legacy code page and names typed in source agree.
use vstd::prelude::*;
use crate::number_format::push_char;
use crate::name_table::NameTable;

verus! {

/// Index of a texture in the registry.
#[derive(Clone, Copy, Debug, PartialEq, Eq, Structural)]
pub struct TextureId(pub usize);

/// The normalised form of one character: ASCII stays, any other character
/// `c` becomes the character whose code is the low byte of `c - 0x7F`.
pub open spec fn normalize_char(c: char) -> char {
    if (c as u32) < 128 {
        c
    } else {
        (((c as u32) - 0x7Fu32) as u8) as char
    }
}

/// The normalised form of a name.
pub open spec fn normalized(name: Seq<char>) -> Seq<char> {
    name.map_values(|c: char| normalize_char(c))
}

/// Registry of models (`M`) and textures (`T`) with their names.
pub struct AssetDatabase<M, T> {
    texture_db: NameTable<TextureId>,
    model_name_to_index: NameTable<usize>,
    models: Vec<M>,
    textures: Vec<T>,
}

impl<M, T> AssetDatabase<M, T> {
    /// Texture index of every registered (normalised) texture name.
    pub closed spec fn texture_names(&self) -> Map<Seq<char>, TextureId> {
        self.texture_db.view()
    }

    /// Model index of every registered (normalised) model name.
    pub closed spec fn model_names(&self) -> Map<Seq<char>, usize> {
        self.model_name_to_index.view()
    }

    pub closed spec fn model_list(&self) -> Seq<M> {
        self.models@
    }

    pub closed spec fn texture_list(&self) -> Seq<T> {
        self.textures@
    }

    /// The name tables are well formed, both lists fit a `usize`, and every
    /// registered name leads to an index inside its list.
    pub closed spec fn wf(&self) -> bool {
        &&& self.texture_db.wf()
        &&& self.model_name_to_index.wf()
        &&& self.models@.len() <= usize::MAX
        &&& self.textures@.len() <= usize::MAX
        &&& forall|k: Seq<char>| #[trigger] self.model_name_to_index.view().dom().contains(k)
            ==> self.model_name_to_index.view()[k] < self.models@.len()
        &&& forall|k: Seq<char>| #[trigger] self.texture_db.view().dom().contains(k)
            ==> self.texture_db.view()[k].0 < self.textures@.len()
    }

    /// What a well-formed registry promises of its lists and names.
    pub proof fn lemma_wf_bounds(&self)
        requires
            self.wf(),
        ensures
            self.model_list().len() <= usize::MAX,
            self.texture_list().len() <= usize::MAX,
            forall|k: Seq<char>| #[trigger] self.model_names().dom().contains(k)
                ==> self.model_names()[k] < self.model_list().len(),
            forall|k: Seq<char>| #[trigger] self.texture_names().dom().contains(k)
                ==> self.texture_names()[k].0 < self.texture_list().len(),
    {
    }

    /// An empty registry.
    pub fn new() -> (r: Self)
        ensures
            r.wf(),
            r.texture_names() == Map::<Seq<char>, TextureId>::empty(),
            r.model_names() == Map::<Seq<char>, usize>::empty(),
            r.model_list() == Seq::<M>::empty(),
            r.texture_list() == Seq::<T>::empty(),
    {
        AssetDatabase {
            texture_db: NameTable::new(),
            model_name_to_index: NameTable::new(),
            models: Vec::with_capacity(512),
            textures: Vec::with_capacity(8192),
        }
    }

    /// Folds every non-ASCII character of `name` into one byte-sized
    /// character, as all stored names are.
    pub fn replace_non_ascii_chars(name: &str) -> (r: String)
        ensures
            r@ == normalized(name@),
    {
        let mut ret = String::new();
        let n = name.unicode_len();
        let mut i: usize = 0;
        while i < n
            invariant
                n == name@.len(),
                i <= n,
                ret@ == normalized(name@).subrange(0, i as int),
            decreases n - i,
        {
            let it = name.get_char(i);
            let code = it as u32;
            let folded = if code < 128 {
                it
            } else {
                ((code - 0x7F) as u8) as char
            };
            push_char(&mut ret, folded);
            proof {
                assert(normalized(name@).subrange(0, i + 1) =~= normalized(name@).subrange(
                    0,
                    i as int,
                ).push(folded));
            }
            i = i + 1;
        }
        proof {
            assert(normalized(name@).subrange(0, n as int) =~= normalized(name@));
        }
        ret
    }

    /// The model at `index`.
    pub fn get_model(&self, index: usize) -> (r: &M)
        requires
            index < self.model_list().len(),
        ensures
            *r == self.model_list()[index as int],
    {
        &self.models[index]
    }

    /// The index under which the model named `name` was registered.
    pub fn get_model_index(&self, name: &str) -> (r: usize)
        requires
            self.wf(),
            self.model_names().dom().contains(normalized(name@)),
        ensures
            r == self.model_names()[normalized(name@)],
            r < self.model_list().len(),
    {
        let key = Self::replace_non_ascii_chars(name);
        match self.model_name_to_index.get(&key) {
            Some(i) => i,
            None => 0,
        }
    }

    /// Appends `model` and registers it under the normalised `name`
    /// (replacing an earlier registration of that name).
    pub fn register_model(&mut self, name: &str, model: M)
        requires
            old(self).wf(),
        ensures
            final(self).wf(),
            final(self).model_list() == old(self).model_list().push(model),
            final(self).model_names() == old(self).model_names().insert(
                normalized(name@),
                old(self).model_list().len() as usize,
            ),
            final(self).texture_names() == old(self).texture_names(),
            final(self).texture_list() == old(self).texture_list(),
    {
        let key = Self::replace_non_ascii_chars(name);
        let index = self.models.len();
        let ghost before = self.model_names();
        self.model_name_to_index.insert(key, index);
        self.models.push(model);
        proof {
            assert(self.models@.len() == self.models.len());
            assert forall|k: Seq<char>| #[trigger] self.model_names().dom().contains(k)
                implies self.model_names()[k] < self.models@.len() by {
                if k != normalized(name@) {
                    assert(before.dom().contains(k));
                }
            }
        }
    }

    /// Appends `count` copies of `placeholder` to the models and returns
    /// their indices, in order.
    pub fn reserve_model_slots(&mut self, placeholder: &M, count: usize) -> (r: Vec<usize>)
        where M: Clone
        requires
            old(self).model_list().len() + count <= usize::MAX,
        ensures
            old(self).wf() ==> final(self).wf(),
            r@.len() == count,
            forall|i: int| 0 <= i < count ==> #[trigger] r@[i] == old(self).model_list().len() + i,
            final(self).model_list().len() == old(self).model_list().len() + count,
            final(self).model_list().subrange(0, old(self).model_list().len() as int) == old(self).model_list(),
            forall|i: int| old(self).model_list().len() <= i < final(self).model_list().len() ==> cloned(*placeholder, #[trigger] final(self).model_list()[i]),
            final(self).model_names() == old(self).model_names(),
            final(self).texture_names() == old(self).texture_names(),
            final(self).texture_list() == old(self).texture_list(),
    {
        let mut indices: Vec<usize> = Vec::new();
        let mut k: usize = 0;
        while k < count
            invariant
                k <= count,
                old(self).model_list().len() + count <= usize::MAX,
                indices@.len() == k,
                forall|i: int| 0 <= i < k ==> #[trigger] indices@[i] == old(self).model_list().len() + i,
                self.model_list().len() == old(self).model_list().len() + k,
                self.model_list().subrange(0, old(self).model_list().len() as int) == old(self).model_list(),
                forall|i: int| old(self).model_list().len() <= i < self.model_list().len() ==> cloned(*placeholder, #[trigger] self.model_list()[i]),
                self.texture_db == old(self).texture_db,
                self.model_name_to_index == old(self).model_name_to_index,
                self.textures == old(self).textures,
            decreases count - k,
        {
            let model_index = self.models.len();
            let copy = placeholder.clone();
            self.models.push(copy);
            indices.push(model_index);
            proof {
                assert(self.model_list().subrange(0, old(self).model_list().len() as int) =~= old(self).model_list());
            }
            k = k + 1;
        }
        proof {
            assert(self.models@.len() == self.models.len());
        }
        indices
    }

    /// Puts `model_render_data` into the reserved slot `model_index` and
    /// registers it under the normalised `name`.
    pub fn fill_bulk_reserved_model_slot(&mut self, model_index: usize, model_render_data: M, name: String)
        requires
            old(self).wf(),
            model_index < old(self).model_list().len(),
        ensures
            final(self).wf(),
            final(self).model_list() == old(self).model_list().update(model_index as int, model_render_data),
            final(self).model_names() == old(self).model_names().insert(normalized(name@), model_index),
            final(self).texture_names() == old(self).texture_names(),
            final(self).texture_list() == old(self).texture_list(),
    {
        let ghost before = self.model_names();
        self.models.set(model_index, model_render_data);
        let key = Self::replace_non_ascii_chars(name.as_str());
        self.model_name_to_index.insert(key, model_index);
        proof {
            assert forall|k: Seq<char>| #[trigger] self.model_names().dom().contains(k)
                implies self.model_names()[k] < self.models@.len() by {
                if k != normalized(name@) {
                    assert(before.dom().contains(k));
                }
            }
        }
    }

    /// The texture registered under the normalised `path`, if any.
    pub fn get_texture_id(&self, path: &str) -> (r: Option<TextureId>)
        requires
            self.wf(),
        ensures
            r == (if self.texture_names().dom().contains(normalized(path@)) {
                Some(self.texture_names()[normalized(path@)])
            } else {
                None::<TextureId>
            }),
            r matches Some(id) ==> id.0 < self.texture_list().len(),
    {
        let key = Self::replace_non_ascii_chars(path);
        self.texture_db.get(&key)
    }

    /// The texture with index `i`.
    pub fn get_texture(&self, i: TextureId) -> (r: &T)
        requires
            i.0 < self.texture_list().len(),
        ensures
            *r == self.texture_list()[i.0 as int],
    {
        &self.textures[i.0]
    }

    /// Appends `gl_texture` and registers it under the normalised `path`,
    /// which must not be registered yet; returns its index.
    pub fn register_texture(&mut self, path: &str, gl_texture: T) -> (r: TextureId)
        requires
            old(self).wf(),
            !old(self).texture_names().dom().contains(normalized(path@)),
        ensures
            final(self).wf(),
            r == TextureId(old(self).texture_list().len() as usize),
            final(self).texture_list() == old(self).texture_list().push(gl_texture),
            final(self).texture_names() == old(self).texture_names().insert(normalized(path@), r),
            final(self).model_names() == old(self).model_names(),
            final(self).model_list() == old(self).model_list(),
    {
        let key = Self::replace_non_ascii_chars(path);
        let texture_id = TextureId(self.textures.len());
        let ghost before = self.texture_names();
        self.textures.push(gl_texture);
        self.texture_db.insert(key, texture_id);
        proof {
            assert(self.textures@.len() == self.textures.len());
            assert forall|k: Seq<char>| #[trigger] self.texture_names().dom().contains(k)
                implies self.texture_names()[k].0 < self.textures@.len() by {
                if k != normalized(path@) {
                    assert(before.dom().contains(k));
                }
            }
        }
        texture_id
    }

    /// Appends `placeholder` as the texture for the normalised `path`, which
    /// must not be registered yet, to be filled in later; returns its index.
    pub fn reserve_texture_slot(&mut self, placeholder: T, path: &str) -> (r: TextureId)
        requires
            old(self).wf(),
            !old(self).texture_names().dom().contains(normalized(path@)),
        ensures
            final(self).wf(),
            r == TextureId(old(self).texture_list().len() as usize),
            final(self).texture_list() == old(self).texture_list().push(placeholder),
            final(self).texture_names() == old(self).texture_names().insert(normalized(path@), r),
            final(self).model_names() == old(self).model_names(),
            final(self).model_list() == old(self).model_list(),
    {
        self.register_texture(path, placeholder)
    }

    /// Appends `count` copies of `placeholder` to the textures, registering
    /// no name, and returns their indices in order.
    pub fn reserve_texture_slots(&mut self, placeholder: &T, count: usize) -> (r: Vec<TextureId>)
        where T: Clone
        requires
            old(self).texture_list().len() + count <= usize::MAX,
        ensures
            old(self).wf() ==> final(self).wf(),
            r@.len() == count,
            forall|i: int| 0 <= i < count ==> #[trigger] r@[i] == TextureId((old(self).texture_list().len() + i) as usize),
            final(self).texture_list().len() == old(self).texture_list().len() + count,
            final(self).texture_list().subrange(0, old(self).texture_list().len() as int) == old(self).texture_list(),
            forall|i: int| old(self).texture_list().len() <= i < final(self).texture_list().len() ==> cloned(*placeholder, #[trigger] final(self).texture_list()[i]),
            final(self).texture_names() == old(self).texture_names(),
            final(self).model_names() == old(self).model_names(),
            final(self).model_list() == old(self).model_list(),
    {
        let mut ids: Vec<TextureId> = Vec::new();
        let mut k: usize = 0;
        while k < count
            invariant
                k <= count,
                old(self).texture_list().len() + count <= usize::MAX,
                ids@.len() == k,
                forall|i: int| 0 <= i < k ==> #[trigger] ids@[i] == TextureId((old(self).texture_list().len() + i) as usize),
                self.texture_list().len() == old(self).texture_list().len() + k,
                self.texture_list().subrange(0, old(self).texture_list().len() as int) == old(self).texture_list(),
                forall|i: int| old(self).texture_list().len() <= i < self.texture_list().len() ==> cloned(*placeholder, #[trigger] self.texture_list()[i]),
                self.texture_db == old(self).texture_db,
                self.model_name_to_index == old(self).model_name_to_index,
                self.models == old(self).models,
            decreases count - k,
        {
            let texture_id = TextureId(self.textures.len());
            let copy = placeholder.clone();
            self.textures.push(copy);
            ids.push(texture_id);
            proof {
                assert(self.texture_list().subrange(0, old(self).texture_list().len() as int) =~= old(self).texture_list());
            }
            k = k + 1;
        }
        proof {
            assert(self.textures@.len() == self.textures.len());
        }
        ids
    }

    /// Puts `gl_texture` into the reserved slot `texture_id`.
    pub fn fill_reserved_texture_slot(&mut self, texture_id: TextureId, gl_texture: T)
        requires
            texture_id.0 < old(self).texture_list().len(),
        ensures
            old(self).wf() ==> final(self).wf(),
            final(self).texture_list() == old(self).texture_list().update(texture_id.0 as int, gl_texture),
            final(self).texture_names() == old(self).texture_names(),
            final(self).model_names() == old(self).model_names(),
            final(self).model_list() == old(self).model_list(),
    {
        self.textures.set(texture_id.0, gl_texture);
    }

    /// Puts `gl_texture` into the reserved slot `texture_id` and registers
    /// it under the normalised `name`, which must not be registered yet.
    pub fn fill_bulk_reserved_texture_slot(&mut self, texture_id: TextureId, gl_texture: T, name: String)
        requires
            old(self).wf(),
            texture_id.0 < old(self).texture_list().len(),
            !old(self).texture_names().dom().contains(normalized(name@)),
        ensures
            final(self).wf(),
            final(self).texture_list() == old(self).texture_list().update(texture_id.0 as int, gl_texture),
            final(self).texture_names() == old(self).texture_names().insert(normalized(name@), texture_id),
            final(self).model_names() == old(self).model_names(),
            final(self).model_list() == old(self).model_list(),
    {
        let ghost before = self.texture_names();
        self.textures.set(texture_id.0, gl_texture);
        let key = Self::replace_non_ascii_chars(name.as_str());
        self.texture_db.insert(key, texture_id);
        proof {
            assert forall|k: Seq<char>| #[trigger] self.texture_names().dom().contains(k)
                implies self.texture_names()[k].0 < self.textures@.len() by {
                if k != normalized(name@) {
                    assert(before.dom().contains(k));
                }
            }
        }
    }
}

/// Law: once `register_texture(path, t)` turned `before` into `after` and
/// returned `id`, any path that normalises as `path` does finds `id`, and
/// the texture at `id` is `t`.
pub proof fn law_registered_texture_is_found<M, T>(
    before: AssetDatabase<M, T>,
    after: AssetDatabase<M, T>,
    path: Seq<char>,
    other: Seq<char>,
    t: T,
    id: TextureId,
)
    requires
        before.wf(),
        after.wf(),
        id == TextureId(before.texture_list().len() as usize),
        after.texture_list() == before.texture_list().push(t),
        after.texture_names() == before.texture_names().insert(normalized(path), id),
        normalized(other) == normalized(path),
    ensures
        after.texture_names().dom().contains(normalized(other)),
        after.texture_names()[normalized(other)] == id,
        id.0 < after.texture_list().len(),
        after.texture_list()[id.0 as int] == t,
{
}

/// Law: once `register_model(name, m)` turned `before` into `after`, the
/// index that `get_model_index(name)` gives leads to `m`, even where `name`
/// had been registered before.
pub proof fn law_registered_model_is_found<M, T>(
    before: AssetDatabase<M, T>,
    after: AssetDatabase<M, T>,
    name: Seq<char>,
    m: M,
)
    requires
        before.wf(),
        after.wf(),
        after.model_list() == before.model_list().push(m),
        after.model_names() == before.model_names().insert(
            normalized(name),
            before.model_list().len() as usize,
        ),
    ensures
        after.model_names().dom().contains(normalized(name)),
        after.model_names()[normalized(name)] < after.model_list().len(),
        after.model_list()[after.model_names()[normalized(name)] as int] == m,
{
}

} // verus!
