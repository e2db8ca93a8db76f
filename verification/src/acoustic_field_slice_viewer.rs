//! The slice viewer: it keeps the flags that still wait for a resource,
//! decides from them what a frame has to rebuild, and encodes it.
//!
//! The viewer allocates nothing itself. `update` hands out what to upload,
//! in order; the renderer performs each upload and reports it with
//! `complete`. A flag whose resource needs an allocation stays raised until
//! that allocation is reported to have succeeded, so a failed one is tried
//! again in the next frame.

use vstd::prelude::*;
use crate::geometry::{high_edge, low_edge, quad_indices_spec, quad_spec, Vertex};
use crate::plan::{acknowledged, awaiting, optional, plan_of, takes, Step};
use crate::settings::ViewerSettings;
use crate::sound_source::SoundSource;
use crate::texture::{
    color_texels, color_texels_spec, drive_texels, drive_texels_spec, position_texels,
    position_texels_spec, RgbColor,
};
use crate::update_flag::{Flag, UpdateFlag};

verus! {

/// A row of a matrix, as single-precision words.
pub type Vector4 = [u32; 4];

/// A matrix of single-precision words; its fourth row is the translation.
pub type Matrix4 = [[u32; 4]; 4];

/// The word of the single-precision number one.
pub const ONE: u32 = 0x3f80_0000;

/// The state that the uploads of a frame encode.
pub struct Scene {
    pub settings: ViewerSettings,
    pub sources: Seq<SoundSource>,
    pub colors: Seq<RgbColor>,
    pub model: Matrix4,
}

/// What a step hands to the renderer. The wavelength and the colour scale
/// go out as the words in which the settings hold them.
#[derive(Debug)]
#[allow(inconsistent_fields)]
pub enum Upload {
    Geometry { vertices: Vec<Vertex>, indices: Vec<u16> },
    DriveTexture { texels: Vec<[u8; 4]> },
    SourceCount { count: usize },
    PositionTexture { texels: Vec<[u32; 4]> },
    ColorMap { texels: Vec<[u8; 4]>, color_scale: u32 },
    Wavenumber { wave_length: u32 },
    Transform { model: Matrix4 },
}

impl Upload {
    /// The step that this upload belongs to.
    pub open spec fn step_spec(self) -> Step {
        match self {
            Upload::Geometry { .. } => Step::Geometry,
            Upload::DriveTexture { .. } => Step::DriveTexture,
            Upload::SourceCount { .. } => Step::SourceCount,
            Upload::PositionTexture { .. } => Step::PositionTexture,
            Upload::ColorMap { .. } => Step::ColorMap,
            Upload::Wavenumber { .. } => Step::Wavenumber,
            Upload::Transform { .. } => Step::Transform,
        }
    }

    /// Whether this upload holds the encoding of `scene`.
    pub open spec fn encodes(self, scene: Scene) -> bool {
        match self {
            Upload::Geometry { vertices, indices } => {
                &&& vertices@ == quad_spec(
                    scene.settings.slice_width as int,
                    scene.settings.slice_height as int,
                )
                &&& indices@ == quad_indices_spec()
            },
            Upload::DriveTexture { texels } => texels@ == drive_texels_spec(scene.sources),
            Upload::SourceCount { count } => count == scene.sources.len(),
            Upload::PositionTexture { texels } => texels@ == position_texels_spec(scene.sources),
            Upload::ColorMap { texels, color_scale } => {
                &&& texels@ == color_texels_spec(scene.colors, scene.settings.slice_alpha)
                &&& color_scale == scene.settings.color_scale
            },
            Upload::Wavenumber { wave_length } => wave_length == scene.settings.wave_length,
            Upload::Transform { model } => model == scene.model,
        }
    }

    /// The step that this upload belongs to.
    pub fn step(&self) -> (s: Step)
        ensures
            s == self.step_spec(),
    {
        match self {
            Upload::Geometry { .. } => Step::Geometry,
            Upload::DriveTexture { .. } => Step::DriveTexture,
            Upload::SourceCount { .. } => Step::SourceCount,
            Upload::PositionTexture { .. } => Step::PositionTexture,
            Upload::ColorMap { .. } => Step::ColorMap,
            Upload::Wavenumber { .. } => Step::Wavenumber,
            Upload::Transform { .. } => Step::Transform,
        }
    }
}

/// The steps of a sequence of uploads.
pub open spec fn steps_of(uploads: Seq<Upload>) -> Seq<Step> {
    Seq::new(uploads.len(), |i: int| uploads[i].step_spec())
}

/// Whether every one of `uploads` holds the encoding of `scene`.
pub open spec fn every_encodes(uploads: Seq<Upload>, scene: Scene) -> bool {
    forall|i: int| 0 <= i < uploads.len() ==> (#[trigger] uploads[i]).encodes(scene)
}

/// The matrix that moves nothing.
pub open spec fn identity_spec() -> Matrix4 {
    [
        [ONE, 0u32, 0u32, 0u32],
        [0u32, ONE, 0u32, 0u32],
        [0u32, 0u32, ONE, 0u32],
        [0u32, 0u32, 0u32, ONE],
    ]
}

/// `rotation` with the translation row of `model`.
pub open spec fn rotated_spec(model: Matrix4, rotation: Matrix4) -> Matrix4 {
    [rotation[0], rotation[1], rotation[2], model[3]]
}

/// `model` with `pos` as its translation row.
pub open spec fn moved_spec(model: Matrix4, pos: Vector4) -> Matrix4 {
    [model[0], model[1], model[2], pos]
}

/// The slice of the acoustic field, as far as it is decided off the GPU:
/// where the slice stands, the ramp it is coloured with, and the flags that
/// still wait for a resource.
pub struct AcousticFiledSliceViewer {
    model: Matrix4,
    color_map: Vec<RgbColor>,
    pending: UpdateFlag,
}

impl AcousticFiledSliceViewer {
    /// The model matrix of the slice.
    pub closed spec fn model_spec(&self) -> Matrix4 {
        self.model
    }

    /// The samples of the colour ramp.
    pub closed spec fn color_map_spec(&self) -> Seq<RgbColor> {
        self.color_map@
    }

    /// The flags that wait for a resource.
    pub closed spec fn pending_spec(&self) -> Set<Flag> {
        self.pending@
    }

    /// What the viewer draws when a frame has these settings and sources.
    pub open spec fn scene(&self, settings: ViewerSettings, sources: Seq<SoundSource>) -> Scene {
        Scene { settings, sources, colors: self.color_map_spec(), model: self.model_spec() }
    }

    /// A viewer that draws with the ramp `color_map`. Its slice sits at the
    /// origin, unrotated, and every flag is raised, so that the first frame
    /// builds every resource.
    pub fn new(color_map: Vec<RgbColor>) -> (viewer: AcousticFiledSliceViewer)
        ensures
            viewer.model_spec() == identity_spec(),
            viewer.color_map_spec() == color_map@,
            viewer.pending_spec() == Set::<Flag>::full(),
    {
        let model: Matrix4 = [[ONE, 0, 0, 0], [0, ONE, 0, 0], [0, 0, ONE, 0], [0, 0, 0, ONE]];
        proof {
            assert(model[0] =~= identity_spec()[0]);
            assert(model[1] =~= identity_spec()[1]);
            assert(model[2] =~= identity_spec()[2]);
            assert(model[3] =~= identity_spec()[3]);
            assert(model =~= identity_spec());
        }
        AcousticFiledSliceViewer { model, color_map, pending: UpdateFlag::all() }
    }

    /// Puts the slice at `pos`, its rotation kept.
    pub fn move_to(&mut self, pos: Vector4)
        ensures
            final(self).model_spec() == moved_spec(old(self).model_spec(), pos),
            final(self).color_map_spec() == old(self).color_map_spec(),
            final(self).pending_spec() == old(self).pending_spec(),
    {
        self.model[3] = pos;
        assert(self.model =~= moved_spec(old(self).model, pos));
    }

    /// Turns the slice as `rotation` says, its position kept: the first
    /// three rows come from `rotation`, the translation row stays.
    pub fn rotate_to(&mut self, rotation: Matrix4)
        ensures
            final(self).model_spec() == rotated_spec(old(self).model_spec(), rotation),
            final(self).color_map_spec() == old(self).color_map_spec(),
            final(self).pending_spec() == old(self).pending_spec(),
    {
        let mut model = rotation;
        model[3] = self.model[3];
        self.model = model;
        assert(self.model =~= rotated_spec(old(self).model, rotation));
    }

    /// The model matrix of the slice.
    pub fn model(&self) -> (m: Matrix4)
        ensures
            m == self.model_spec(),
    {
        self.model
    }

    /// The samples of the colour ramp.
    pub fn color_map(&self) -> (colors: &[RgbColor])
        ensures
            colors@ == self.color_map_spec(),
    {
        self.color_map.as_slice()
    }

    /// The flags that wait for a resource.
    pub fn pending(&self) -> (flags: UpdateFlag)
        ensures
            flags@ == self.pending_spec(),
    {
        self.pending
    }

    /// The vertices and indices of the slice that `settings` asks for. A
    /// width or height beyond what a vertex can hold is cut to what it can.
    pub fn initialize_vertex_buf_and_slice(settings: &ViewerSettings) -> (r: (
        Vec<Vertex>,
        Vec<u16>,
    ))
        ensures
            r.0@ == quad_spec(settings.slice_width as int, settings.slice_height as int),
            r.1@ == quad_indices_spec(),
    {
        let wl = low_edge(settings.slice_width);
        let wr = high_edge(settings.slice_width);
        let hb = low_edge(settings.slice_height);
        let ht = high_edge(settings.slice_height);
        let mut vertex_data: Vec<Vertex> = Vec::with_capacity(4);
        vertex_data.push(Vertex::new([wl, hb, 0]));
        vertex_data.push(Vertex::new([wr, hb, 0]));
        vertex_data.push(Vertex::new([wr, ht, 0]));
        vertex_data.push(Vertex::new([wl, ht, 0]));
        let mut index_data: Vec<u16> = Vec::with_capacity(6);
        index_data.push(0);
        index_data.push(1);
        index_data.push(2);
        index_data.push(2);
        index_data.push(3);
        index_data.push(0);
        proof {
            assert(vertex_data@ =~= quad_spec(
                settings.slice_width as int,
                settings.slice_height as int,
            ));
            assert(index_data@ =~= quad_indices_spec());
        }
        (vertex_data, index_data)
    }

    /// The texels of the drive texture, or nothing for an empty array, whose
    /// texture stays as it was.
    pub fn update_drive_texture(sources: &[SoundSource]) -> (r: Option<Vec<[u8; 4]>>)
        ensures
            r is Some <==> sources@.len() > 0,
            r is Some ==> r->0@ == drive_texels_spec(sources@),
    {
        if sources.len() == 0 {
            return None;
        }
        Some(drive_texels(sources))
    }

    /// The texels of the position texture, or nothing for an empty array.
    pub fn update_position_texture(sources: &[SoundSource]) -> (r: Option<Vec<[u32; 4]>>)
        ensures
            r is Some <==> sources@.len() > 0,
            r is Some ==> r->0@ == position_texels_spec(sources@),
    {
        if sources.len() == 0 {
            return None;
        }
        Some(position_texels(sources))
    }

    /// The texels of the ramp texture, drawn with opacity `alpha`.
    pub fn update_color_map_texture(colors: &[RgbColor], alpha: u16) -> (texels: Vec<[u8; 4]>)
        ensures
            texels@ == color_texels_spec(colors@, alpha),
    {
        color_texels(colors, alpha)
    }

    /// The flags of `raised` whose step waits for an allocation when the
    /// array has `count` sources.
    fn awaited(raised: UpdateFlag, count: usize) -> (waiting: UpdateFlag)
        ensures
            waiting@ == awaiting(raised@, count as nat),
    {
        let mut waiting = UpdateFlag::empty();
        if raised.contains(Flag::SliceSize) {
            waiting.insert(Flag::SliceSize);
        }
        if raised.contains(Flag::ColorMap) {
            waiting.insert(Flag::ColorMap);
        }
        if count > 0 && raised.contains(Flag::SourceDrive) {
            waiting.insert(Flag::SourceDrive);
        }
        if count > 0 && raised.contains(Flag::SourcePos) {
            waiting.insert(Flag::SourcePos);
        }
        assert(waiting@ =~= awaiting(raised@, count as nat));
        waiting
    }

    /// Appends one upload to the work of a frame.
    fn hand_out(
        uploads: &mut Vec<Upload>,
        upload: Upload,
        Ghost(scene): Ghost<Scene>,
    )
        requires
            every_encodes(old(uploads)@, scene),
            upload.encodes(scene),
        ensures
            steps_of(final(uploads)@) == steps_of(old(uploads)@) + optional(
                true,
                upload.step_spec(),
            ),
            every_encodes(final(uploads)@, scene),
    {
        uploads.push(upload);
        assert(steps_of(uploads@) =~= steps_of(old(uploads)@) + optional(true, upload.step_spec()));
    }

    /// Raises `update_flag` and hands out the work of the frame: one upload
    /// for each step that the raised flags ask for, in the order of the plan,
    /// each holding the encoding of the state given here. Afterwards the
    /// flags that stay raised are those whose step waits for an allocation.
    pub fn update(
        &mut self,
        settings: &ViewerSettings,
        sources: &[SoundSource],
        update_flag: UpdateFlag,
    ) -> (uploads: Vec<Upload>)
        ensures
            steps_of(uploads@) == plan_of(
                old(self).pending_spec().union(update_flag@),
                sources@.len(),
            ),
            every_encodes(uploads@, old(self).scene(*settings, sources@)),
            final(self).pending_spec() == awaiting(
                old(self).pending_spec().union(update_flag@),
                sources@.len(),
            ),
            final(self).model_spec() == old(self).model_spec(),
            final(self).color_map_spec() == old(self).color_map_spec(),
    {
        let raised = self.pending.union(update_flag);
        let ghost count = sources@.len();
        let ghost scene = self.scene(*settings, sources@);
        let mut uploads: Vec<Upload> = Vec::new();

        if raised.contains(Flag::SliceSize) {
            let (vertices, indices) = Self::initialize_vertex_buf_and_slice(settings);
            let upload = Upload::Geometry { vertices, indices };
            Self::hand_out(&mut uploads, upload, Ghost(scene));
        }
        let ghost s1 = steps_of(uploads@);
        assert(s1 =~= optional(takes(raised@, count, Step::Geometry), Step::Geometry));

        if raised.contains(Flag::SourceDrive) {
            match Self::update_drive_texture(sources) {
                Some(texels) => {
                    let upload = Upload::DriveTexture { texels };
                    Self::hand_out(&mut uploads, upload, Ghost(scene));
                },
                None => {},
            }
        }
        let ghost s2 = steps_of(uploads@);
        assert(s2 =~= s1 + optional(takes(raised@, count, Step::DriveTexture), Step::DriveTexture));

        if raised.contains(Flag::SourcePos) {
            let upload = Upload::SourceCount { count: sources.len() };
            Self::hand_out(&mut uploads, upload, Ghost(scene));
        }
        let ghost s3 = steps_of(uploads@);
        assert(s3 =~= s2 + optional(takes(raised@, count, Step::SourceCount), Step::SourceCount));

        if raised.contains(Flag::SourcePos) {
            match Self::update_position_texture(sources) {
                Some(texels) => {
                    let upload = Upload::PositionTexture { texels };
                    Self::hand_out(&mut uploads, upload, Ghost(scene));
                },
                None => {},
            }
        }
        let ghost s4 = steps_of(uploads@);
        assert(s4 =~= s3 + optional(
            takes(raised@, count, Step::PositionTexture),
            Step::PositionTexture,
        ));

        if raised.contains(Flag::ColorMap) {
            let texels = Self::update_color_map_texture(
                self.color_map.as_slice(),
                settings.slice_alpha,
            );
            let upload = Upload::ColorMap { texels, color_scale: settings.color_scale };
            Self::hand_out(&mut uploads, upload, Ghost(scene));
        }
        let ghost s5 = steps_of(uploads@);
        assert(s5 =~= s4 + optional(takes(raised@, count, Step::ColorMap), Step::ColorMap));

        if raised.contains(Flag::Wavenum) {
            let upload = Upload::Wavenumber { wave_length: settings.wave_length };
            Self::hand_out(&mut uploads, upload, Ghost(scene));
        }
        let ghost s6 = steps_of(uploads@);
        assert(s6 =~= s5 + optional(takes(raised@, count, Step::Wavenumber), Step::Wavenumber));

        if raised.contains(Flag::CameraPos) || raised.contains(Flag::SlicePos) || raised.contains(
            Flag::SliceSize,
        ) {
            let upload = Upload::Transform { model: self.model };
            Self::hand_out(&mut uploads, upload, Ghost(scene));
        }
        let ghost s7 = steps_of(uploads@);
        assert(s7 =~= s6 + optional(takes(raised@, count, Step::Transform), Step::Transform));

        self.pending = Self::awaited(raised, sources.len());
        uploads
    }

    /// Takes the report of one step. A step that succeeded clears the flag
    /// that asked for its allocation; one that failed leaves it raised.
    pub fn complete(&mut self, step: Step, ok: bool)
        ensures
            final(self).pending_spec() == acknowledged(old(self).pending_spec(), step, ok),
            final(self).model_spec() == old(self).model_spec(),
            final(self).color_map_spec() == old(self).color_map_spec(),
    {
        if ok {
            match step {
                Step::Geometry => self.pending.remove(Flag::SliceSize),
                Step::DriveTexture => self.pending.remove(Flag::SourceDrive),
                Step::PositionTexture => self.pending.remove(Flag::SourcePos),
                Step::ColorMap => self.pending.remove(Flag::ColorMap),
                Step::SourceCount | Step::Wavenumber | Step::Transform => {},
            }
        }
    }
}

} // verus!
