use vstd::prelude::*;

verus! {

/// The texture handles the renderer binds each frame, in the order the
/// driver is told to bind them: the handle added first goes to the first
/// texture unit. Creating and binding the textures happens outside the
/// library; this side keeps the list.
pub struct TextureManager {
    pub textures: Vec<u32>,
}

impl TextureManager {
    /// A manager holding no textures yet.
    pub fn new() -> (m: TextureManager)
        ensures
            m.textures@ == Seq::<u32>::empty(),
    {
        TextureManager { textures: Vec::new() }
    }

    /// Appends a texture handle behind the ones added so far.
    pub fn add_texture(&mut self, texture: u32)
        ensures
            final(self).textures@ == old(self).textures@.push(texture),
    {
        self.textures.push(texture);
    }

    /// How many textures were added.
    pub fn len(&self) -> (n: usize)
        ensures
            n == self.textures@.len(),
    {
        self.textures.len()
    }

    /// The handle at position `index`, counted in the order of addition.
    pub fn index(&self, index: usize) -> (t: u32)
        requires
            index < self.textures@.len(),
        ensures
            t == self.textures@[index as int],
    {
        self.textures[index]
    }
}

} // verus!
