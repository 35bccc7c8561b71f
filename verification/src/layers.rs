use vstd::prelude::*;

use crate::view::Viewport;

verus! {

/// Identifies a GL context that renders layers.
#[derive(Clone, Copy, Debug, PartialEq, Eq, Hash, Structural)]
pub struct ContextId(pub usize);

/// Identifies a layer that a context renders into.
#[derive(Clone, Copy, Debug, PartialEq, Eq, Hash, Structural)]
pub struct LayerId(pub usize);

/// A part of a layer's texture: the textures and the rectangle to draw in.
#[derive(Clone, Copy, Debug, PartialEq, Eq, Structural)]
pub struct SubImage {
    pub color_texture: u32,
    pub depth_stencil_texture: Option<u32>,
    pub texture_array_index: Option<u32>,
    pub viewport: Viewport,
}

/// The parts of a layer's texture that a frame draws: the whole of it, and
/// one part for each view.
#[derive(Clone, Debug)]
pub struct SubImages {
    pub layer_id: LayerId,
    pub sub_image: Option<SubImage>,
    pub view_sub_images: Vec<SubImage>,
}

/// The sub-image of `color_texture` with the given viewport, and no depth
/// or array index.
pub open spec fn color_sub_image(color_texture: u32, viewport: Viewport) -> SubImage {
    SubImage { color_texture, depth_stencil_texture: None, texture_array_index: None, viewport }
}

/// The parts of a layer whose surface is `width` by `height` and whose color
/// is in `color_texture`: the whole surface, and each of the views'
/// viewports on it.
pub fn layer_sub_images(
    layer_id: LayerId,
    color_texture: u32,
    width: i32,
    height: i32,
    viewports: &Vec<Viewport>,
) -> (r: SubImages)
    ensures
        r.layer_id == layer_id,
        r.sub_image == Some(color_sub_image(color_texture, Viewport { x: 0, y: 0, width, height })),
        r.view_sub_images@ == viewports@.map_values(|v: Viewport| color_sub_image(color_texture, v)),
{
    let n = viewports.len();
    let mut views: Vec<SubImage> = Vec::new();
    let mut i: usize = 0;
    while i < n
        invariant
            0 <= i <= n,
            n == viewports@.len(),
            views@ == viewports@.subrange(0, i as int).map_values(
                |v: Viewport| color_sub_image(color_texture, v),
            ),
        decreases n - i,
    {
        let v = viewports[i];
        views.push(
            SubImage {
                color_texture,
                depth_stencil_texture: None,
                texture_array_index: None,
                viewport: v,
            },
        );
        i += 1;
        assert(views@ =~= viewports@.subrange(0, i as int).map_values(
            |v: Viewport| color_sub_image(color_texture, v),
        ));
    }
    assert(viewports@.subrange(0, n as int) =~= viewports@);
    SubImages {
        layer_id,
        sub_image: Some(
            SubImage {
                color_texture,
                depth_stencil_texture: None,
                texture_array_index: None,
                viewport: Viewport::new(0, 0, width, height),
            },
        ),
        view_sub_images: views,
    }
}

/// The layers that a layer manager has made, with the context of each, in
/// the order in which they were made.
pub struct LayerList {
    pub layers: Vec<(ContextId, LayerId)>,
}

impl LayerList {
    /// No layer.
    pub fn new() -> (l: LayerList)
        ensures
            l.layers@ == Seq::<(ContextId, LayerId)>::empty(),
    {
        LayerList { layers: Vec::new() }
    }

    /// Records a new layer of a context.
    pub fn add(&mut self, context_id: ContextId, layer_id: LayerId)
        ensures
            final(self).layers@ == old(self).layers@.push((context_id, layer_id)),
    {
        self.layers.push((context_id, layer_id));
    }

    /// Forgets a layer of a context; the others keep their order.
    pub fn remove(&mut self, context_id: ContextId, layer_id: LayerId)
        ensures
            final(self).layers@ == old(self).layers@.filter_map(
                |p: (ContextId, LayerId)| other_layer(p, context_id, layer_id),
            ),
    {
        let n = self.layers.len();
        let mut kept: Vec<(ContextId, LayerId)> = Vec::new();
        let mut i: usize = 0;
        while i < n
            invariant
                0 <= i <= n,
                n == self.layers@.len(),
                kept@ == self.layers@.take(i as int).filter_map(
                    |p: (ContextId, LayerId)| other_layer(p, context_id, layer_id),
                ),
            decreases n - i,
        {
            proof {
                self.layers@.lemma_filter_map_take_succ(
                    |p: (ContextId, LayerId)| other_layer(p, context_id, layer_id),
                    i as int,
                );
            }
            let p = self.layers[i];
            if p.0 != context_id || p.1 != layer_id {
                kept.push(p);
            }
            i += 1;
        }
        assert(self.layers@.take(n as int) =~= self.layers@);
        self.layers = kept;
    }

    /// The layers, in the order in which they were made.
    pub fn layers(&self) -> (r: &[(ContextId, LayerId)])
        ensures
            r@ == self.layers@,
    {
        self.layers.as_slice()
    }
}

/// The pair itself, unless it is the one given.
pub open spec fn other_layer(p: (ContextId, LayerId), context_id: ContextId, layer_id: LayerId) -> Option<
    (ContextId, LayerId),
> {
    if p != (context_id, layer_id) {
        Some(p)
    } else {
        None
    }
}

/// The entry itself, unless it is of the given layer.
pub open spec fn kept_entry(e: FramebufferEntry, layer_id: LayerId) -> Option<FramebufferEntry> {
    if e.layer_id != layer_id {
        Some(e)
    } else {
        None
    }
}

/// The entry's framebuffer, if it is of the given layer.
pub open spec fn removed_fbo(e: FramebufferEntry, layer_id: LayerId) -> Option<u32> {
    if e.layer_id == layer_id {
        Some(e.fbo)
    } else {
        None
    }
}

/// A framebuffer made for a layer's color texture (and depth/stencil
/// texture, if any).
#[derive(Clone, Copy, Debug, PartialEq, Eq, Structural)]
pub struct FramebufferEntry {
    pub layer_id: LayerId,
    pub color: u32,
    pub depth_stencil: Option<u32>,
    pub fbo: u32,
}

/// The framebuffers that a clearer has made, one for each layer and texture.
pub struct FramebufferCache {
    pub entries: Vec<FramebufferEntry>,
}

/// Whether `e` is the framebuffer of that layer and textures.
pub open spec fn entry_for(
    e: FramebufferEntry,
    layer_id: LayerId,
    color: u32,
    depth_stencil: Option<u32>,
) -> bool {
    e.layer_id == layer_id && e.color == color && e.depth_stencil == depth_stencil
}

impl FramebufferCache {
    /// No two entries are for the same layer and textures.
    pub open spec fn wf(&self) -> bool {
        forall|i: int, j: int|
            0 <= i < j < self.entries@.len() ==> !entry_for(
                #[trigger] self.entries@[i],
                self.entries@[j].layer_id,
                #[trigger] self.entries@[j].color,
                self.entries@[j].depth_stencil,
            )
    }

    /// No framebuffer.
    pub fn new() -> (c: FramebufferCache)
        ensures
            c.entries@ == Seq::<FramebufferEntry>::empty(),
            c.wf(),
    {
        FramebufferCache { entries: Vec::new() }
    }

    /// The framebuffer of that layer and textures, if one was made.
    pub fn lookup(&self, layer_id: LayerId, color: u32, depth_stencil: Option<u32>) -> (r: Option<u32>)
        ensures
            r matches Some(fbo) ==> exists|i: int|
                0 <= i < self.entries@.len() && entry_for(
                    self.entries@[i],
                    layer_id,
                    color,
                    depth_stencil,
                ) && self.entries@[i].fbo == fbo,
            r is None ==> forall|i: int|
                0 <= i < self.entries@.len() ==> !entry_for(
                    #[trigger] self.entries@[i],
                    layer_id,
                    color,
                    depth_stencil,
                ),
    {
        let n = self.entries.len();
        let mut i: usize = 0;
        while i < n
            invariant
                0 <= i <= n,
                n == self.entries@.len(),
                forall|j: int|
                    0 <= j < i ==> !entry_for(
                        #[trigger] self.entries@[j],
                        layer_id,
                        color,
                        depth_stencil,
                    ),
            decreases n - i,
        {
            let e = self.entries[i];
            if e.layer_id == layer_id && e.color == color && e.depth_stencil == depth_stencil {
                return Some(e.fbo);
            }
            i += 1;
        }
        None
    }

    /// Records the framebuffer made for that layer and textures, which had none.
    pub fn insert(&mut self, layer_id: LayerId, color: u32, depth_stencil: Option<u32>, fbo: u32)
        requires
            old(self).wf(),
            forall|i: int|
                0 <= i < old(self).entries@.len() ==> !entry_for(
                    #[trigger] old(self).entries@[i],
                    layer_id,
                    color,
                    depth_stencil,
                ),
        ensures
            final(self).wf(),
            final(self).entries@ == old(self).entries@.push(
                FramebufferEntry { layer_id, color, depth_stencil, fbo },
            ),
    {
        self.entries.push(FramebufferEntry { layer_id, color, depth_stencil, fbo });
    }

    /// Forgets the framebuffers of a layer, and answers them, to be deleted;
    /// the others stay, in their order.
    pub fn remove_layer(&mut self, layer_id: LayerId) -> (removed: Vec<u32>)
        requires
            old(self).wf(),
        ensures
            final(self).wf(),
            final(self).entries@ == old(self).entries@.filter_map(
                |e: FramebufferEntry| kept_entry(e, layer_id),
            ),
            removed@ == old(self).entries@.filter_map(|e: FramebufferEntry| removed_fbo(e, layer_id)),
    {
        let n = self.entries.len();
        let mut kept: Vec<FramebufferEntry> = Vec::new();
        let mut removed: Vec<u32> = Vec::new();
        let ghost mut src: Seq<int> = Seq::empty();
        let mut i: usize = 0;
        while i < n
            invariant
                0 <= i <= n,
                n == self.entries@.len(),
                self.wf(),
                kept@ == self.entries@.take(i as int).filter_map(
                    |e: FramebufferEntry| kept_entry(e, layer_id),
                ),
                removed@ == self.entries@.take(i as int).filter_map(
                    |e: FramebufferEntry| removed_fbo(e, layer_id),
                ),
                src.len() == kept@.len(),
                forall|a: int| 0 <= a < src.len() ==> 0 <= #[trigger] src[a] < i,
                forall|a: int| 0 <= a < src.len() ==> self.entries@[#[trigger] src[a]] == kept@[a],
                forall|a: int, b: int| 0 <= a < b < src.len() ==> #[trigger] src[a] < #[trigger] src[b],
            decreases n - i,
        {
            proof {
                self.entries@.lemma_filter_map_take_succ(
                    |e: FramebufferEntry| kept_entry(e, layer_id),
                    i as int,
                );
                self.entries@.lemma_filter_map_take_succ(
                    |e: FramebufferEntry| removed_fbo(e, layer_id),
                    i as int,
                );
            }
            let e = self.entries[i];
            if e.layer_id != layer_id {
                kept.push(e);
                proof {
                    src = src.push(i as int);
                }
            } else {
                removed.push(e.fbo);
            }
            i += 1;
        }
        assert(self.entries@.take(n as int) =~= self.entries@);
        proof {
            let old_entries = self.entries@;
            assert forall|a: int, b: int|
                0 <= a < b < kept@.len() implies !entry_for(
                #[trigger] kept@[a],
                kept@[b].layer_id,
                #[trigger] kept@[b].color,
                kept@[b].depth_stencil,
            ) by {
                assert(src[a] < src[b]);
                assert(old_entries[src[a]] == kept@[a]);
                assert(old_entries[src[b]] == kept@[b]);
            }
        }
        self.entries = kept;
        removed
    }
}

} // verus!
