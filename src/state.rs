//! The plot's data and discrete view state: display mode, channel filter,
//! slice, toggles, and the cached domain-coloring texture.
use vstd::prelude::*;
use crate::input::{KeyPresses, step_slice, stepped_slice};
use crate::mode::{GraphMode, Show};
use crate::sample::{GraphType, is_3d, spec_is_3d};

verus! {

/// egui's handle to an uploaded texture, carried through as it is.
#[verifier::external_type_specification]
#[verifier::external_body]
pub struct ExTextureHandle(egui::TextureHandle);

/// What a `GraphState` holds, as plain values.
pub ghost struct GraphModel<F> {
    pub data: Seq<GraphType<F>>,
    pub cache: Option<egui::TextureHandle>,
    pub slice: nat,
    pub lines: bool,
    pub show: Show,
    pub anti_alias: bool,
    pub scale_axis: bool,
    pub disable_lines: bool,
    pub disable_axis: bool,
    pub disable_coord: bool,
    pub view_x: bool,
    pub graph_mode: GraphMode,
    pub is_3d: bool,
}

/// The datasets of a plot with everything about how they are shown that is
/// not pixel geometry.
pub struct GraphState<F> {
    data: Vec<GraphType<F>>,
    cache: Option<egui::TextureHandle>,
    slice: usize,
    lines: bool,
    show: Show,
    anti_alias: bool,
    scale_axis: bool,
    disable_lines: bool,
    disable_axis: bool,
    disable_coord: bool,
    view_x: bool,
    graph_mode: GraphMode,
    is_3d: bool,
}

/// The model after the discrete keys of one frame: each toggle flips its
/// flag, the smoothing toggle also drops the texture, the slice keys step the
/// slice, the filter moves on in its cycle, and the mode moves one step of the
/// mode cycle, backward under shift.
pub open spec fn after_keys<F>(m: GraphModel<F>, k: KeyPresses) -> GraphModel<F> {
    let cycled = if k.cycle_mode {
        m.graph_mode.spec_cycle(m.is_3d, k.shift)
    } else {
        (m.graph_mode, m.is_3d)
    };
    GraphModel {
        data: m.data,
        cache: if k.toggle_anti_alias {
            None
        } else {
            m.cache
        },
        slice: stepped_slice(m.slice, k),
        lines: m.lines != k.toggle_lines,
        show: if k.cycle_show {
            m.show.spec_next()
        } else {
            m.show
        },
        anti_alias: m.anti_alias != k.toggle_anti_alias,
        scale_axis: m.scale_axis != k.toggle_scale_axis,
        disable_lines: m.disable_lines != k.toggle_grid,
        disable_axis: m.disable_axis != k.toggle_axis,
        disable_coord: m.disable_coord != k.toggle_coord,
        view_x: m.view_x != k.toggle_view_x,
        graph_mode: cycled.0,
        is_3d: cycled.1,
    }
}

impl<F> View for GraphState<F> {
    type V = GraphModel<F>;

    closed spec fn view(&self) -> GraphModel<F> {
        GraphModel {
            data: self.data@,
            cache: self.cache,
            slice: self.slice as nat,
            lines: self.lines,
            show: self.show,
            anti_alias: self.anti_alias,
            scale_axis: self.scale_axis,
            disable_lines: self.disable_lines,
            disable_axis: self.disable_axis,
            disable_coord: self.disable_coord,
            view_x: self.view_x,
            graph_mode: self.graph_mode,
            is_3d: self.is_3d,
        }
    }
}

impl<F> GraphState<F> {
    /// A fresh state for `data`: normal mode, both channels shown, lines and
    /// anti-aliasing on, nothing disabled, slice 0, no texture, and a 3D view
    /// exactly when some dataset is a function of two variables.
    pub fn new(data: Vec<GraphType<F>>) -> (r: Self)
        ensures
            r@ == (GraphModel {
                data: data@,
                cache: None,
                slice: 0,
                lines: true,
                show: Show::Complex,
                anti_alias: true,
                scale_axis: false,
                disable_lines: false,
                disable_axis: false,
                disable_coord: false,
                view_x: false,
                graph_mode: GraphMode::Normal,
                is_3d: spec_is_3d(data@),
            }),
    {
        let three = is_3d(data.as_slice());
        GraphState {
            data,
            cache: None,
            slice: 0,
            lines: true,
            show: Show::Complex,
            anti_alias: true,
            scale_axis: false,
            disable_lines: false,
            disable_axis: false,
            disable_coord: false,
            view_x: false,
            graph_mode: GraphMode::Normal,
            is_3d: three,
        }
    }

    /// Replaces the datasets; drops the cached texture and recomputes whether
    /// the view is 3D.
    pub fn set_data(&mut self, data: Vec<GraphType<F>>)
        ensures
            final(self)@ == (GraphModel {
                data: data@,
                cache: None,
                is_3d: spec_is_3d(data@),
                ..old(self)@
            }),
    {
        self.is_3d = is_3d(data.as_slice());
        self.data = data;
        self.cache = None;
    }

    /// Removes every dataset; drops the cached texture, and the view is no
    /// longer 3D.
    pub fn clear_data(&mut self)
        ensures
            final(self)@ == (GraphModel {
                data: Seq::empty(),
                cache: None,
                is_3d: false,
                ..old(self)@
            }),
    {
        self.data.clear();
        self.cache = None;
        self.is_3d = false;
    }

    /// Appends a dataset; drops the cached texture and recomputes whether the
    /// view is 3D.
    pub fn push_data(&mut self, data: GraphType<F>)
        ensures
            final(self)@ == (GraphModel {
                data: old(self)@.data.push(data),
                cache: None,
                is_3d: spec_is_3d(old(self)@.data.push(data)),
                ..old(self)@
            }),
    {
        self.data.push(data);
        self.cache = None;
        self.is_3d = is_3d(self.data.as_slice());
    }

    /// Whether consecutive points are joined by lines.
    pub fn set_lines(&mut self, lines: bool)
        ensures
            final(self)@ == (GraphModel { lines, ..old(self)@ }),
    {
        self.lines = lines;
    }

    /// Whether the domain-coloring texture is filtered smoothly; drops the
    /// cached texture so that it is uploaded again with the new filter.
    pub fn set_anti_alias(&mut self, anti_alias: bool)
        ensures
            final(self)@ == (GraphModel { anti_alias, cache: None, ..old(self)@ }),
    {
        self.anti_alias = anti_alias;
        self.cache = None;
    }

    /// Whether the axes are scaled.
    pub fn set_scale_axis(&mut self, scale: bool)
        ensures
            final(self)@ == (GraphModel { scale_axis: scale, ..old(self)@ }),
    {
        self.scale_axis = scale;
    }

    /// Whether the grid lines are hidden.
    pub fn disable_lines(&mut self, disable: bool)
        ensures
            final(self)@ == (GraphModel { disable_lines: disable, ..old(self)@ }),
    {
        self.disable_lines = disable;
    }

    /// Whether the axes and their labels are hidden.
    pub fn disable_axis(&mut self, disable: bool)
        ensures
            final(self)@ == (GraphModel { disable_axis: disable, ..old(self)@ }),
    {
        self.disable_axis = disable;
    }

    /// Whether the coordinate or angle readout is hidden.
    pub fn disable_coord(&mut self, disable: bool)
        ensures
            final(self)@ == (GraphModel { disable_coord: disable, ..old(self)@ }),
    {
        self.disable_coord = disable;
    }

    /// Selects a display mode. Domain coloring and the plain slice force a 2D
    /// view; every other mode takes the dimensionality from the datasets.
    pub fn set_mode(&mut self, mode: GraphMode)
        ensures
            final(self)@ == (GraphModel {
                graph_mode: mode,
                is_3d: !mode.spec_forces_2d() && spec_is_3d(old(self)@.data),
                ..old(self)@
            }),
    {
        if mode.forces_2d() {
            self.is_3d = false;
        } else {
            self.is_3d = is_3d(self.data.as_slice());
        }
        self.graph_mode = mode;
    }

    /// Applies the discrete keys pressed during one frame.
    #[verifier::rlimit(30)]
    pub fn apply_keys(&mut self, keys: &KeyPresses)
        ensures
            final(self)@ == after_keys(old(self)@, *keys),
    {
        self.disable_lines = self.disable_lines != keys.toggle_grid;
        self.disable_axis = self.disable_axis != keys.toggle_axis;
        self.disable_coord = self.disable_coord != keys.toggle_coord;
        self.scale_axis = self.scale_axis != keys.toggle_scale_axis;
        self.anti_alias = self.anti_alias != keys.toggle_anti_alias;
        self.view_x = self.view_x != keys.toggle_view_x;
        self.lines = self.lines != keys.toggle_lines;
        self.slice = step_slice(self.slice, keys);
        if keys.cycle_show {
            self.show = self.show.next();
        }
        if keys.cycle_mode {
            self.cycle_mode(keys.shift);
        }
        if keys.toggle_anti_alias {
            self.cache = None;
        }
    }

    /// Moves one step along the mode cycle, backward when `back` holds.
    pub fn cycle_mode(&mut self, back: bool)
        ensures
            final(self)@ == (GraphModel {
                graph_mode: old(self)@.graph_mode.spec_cycle(old(self)@.is_3d, back).0,
                is_3d: old(self)@.graph_mode.spec_cycle(old(self)@.is_3d, back).1,
                ..old(self)@
            }),
    {
        let (mode, three) = self.graph_mode.cycle(self.is_3d, back);
        self.graph_mode = mode;
        self.is_3d = three;
    }

    /// Clamps the slice index to a grid of side `len` and returns it.
    pub fn clamp_slice(&mut self, len: usize) -> (r: usize)
        requires
            len > 0,
        ensures
            r < len,
            r as nat == if old(self)@.slice < len { old(self)@.slice } else { (len - 1) as nat },
            final(self)@ == (GraphModel { slice: r as nat, ..old(self)@ }),
    {
        if self.slice >= len {
            self.slice = len - 1;
        }
        self.slice
    }

    /// The datasets.
    pub fn data(&self) -> (r: &Vec<GraphType<F>>)
        ensures
            r@ == self@.data,
    {
        &self.data
    }

    /// The cached domain-coloring texture, if any.
    pub fn cache(&self) -> (r: &Option<egui::TextureHandle>)
        ensures
            *r == self@.cache,
    {
        &self.cache
    }

    /// Whether the next domain-coloring frame must compute and upload the texture.
    pub fn needs_texture(&self) -> (r: bool)
        ensures
            r == (self@.cache is None),
    {
        self.cache.is_none()
    }

    /// The slice index.
    pub fn slice(&self) -> (r: usize)
        ensures
            r as nat == self@.slice,
    {
        self.slice
    }

    /// Whether consecutive points are joined by lines.
    pub fn lines(&self) -> (r: bool)
        ensures
            r == self@.lines,
    {
        self.lines
    }

    /// The channel filter.
    pub fn show(&self) -> (r: Show)
        ensures
            r == self@.show,
    {
        self.show
    }

    /// Whether the texture is filtered smoothly.
    pub fn anti_alias(&self) -> (r: bool)
        ensures
            r == self@.anti_alias,
    {
        self.anti_alias
    }

    /// Whether the axes are scaled.
    pub fn scale_axis(&self) -> (r: bool)
        ensures
            r == self@.scale_axis,
    {
        self.scale_axis
    }

    /// Whether the grid lines are hidden.
    pub fn lines_disabled(&self) -> (r: bool)
        ensures
            r == self@.disable_lines,
    {
        self.disable_lines
    }

    /// Whether the axes are hidden.
    pub fn axis_disabled(&self) -> (r: bool)
        ensures
            r == self@.disable_axis,
    {
        self.disable_axis
    }

    /// Whether the readout is hidden.
    pub fn coord_disabled(&self) -> (r: bool)
        ensures
            r == self@.disable_coord,
    {
        self.disable_coord
    }

    /// Whether slices are rows (else columns).
    pub fn view_x(&self) -> (r: bool)
        ensures
            r == self@.view_x,
    {
        self.view_x
    }

    /// The display mode.
    pub fn graph_mode(&self) -> (r: GraphMode)
        ensures
            r == self@.graph_mode,
    {
        self.graph_mode
    }

    /// Whether the view is three-dimensional.
    pub fn is_3d(&self) -> (r: bool)
        ensures
            r == self@.is_3d,
    {
        self.is_3d
    }

    /// Keeps `texture` as the cached domain-coloring texture.
    pub fn store_texture(&mut self, texture: egui::TextureHandle)
        ensures
            final(self)@ == (GraphModel { cache: Some(texture), ..old(self)@ }),
    {
        self.cache = Some(texture);
    }
}

} // verus!
