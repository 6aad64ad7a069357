//! Voxel models: a width x height x depth grid of colored cells, edited by
//! cell, box and model merge, and the face-visibility test used for meshing.

use vstd::prelude::*;
use super::palette;

verus! {

/// A color in the voxel palette (RGB).
#[derive(Debug, Clone, Copy, PartialEq, Eq, Structural)]
pub struct VoxelColor {
    pub r: u8,
    pub g: u8,
    pub b: u8,
}

/// The color whose 0xRRGGBB value is `hex` (higher bits ignored).
pub open spec fn hex_color(hex: u32) -> VoxelColor {
    VoxelColor { r: ((hex / 0x10000) % 256) as u8, g: ((hex / 0x100) % 256) as u8, b: (hex % 256) as u8 }
}

impl VoxelColor {
    /// A color from its components.
    pub fn new(r: u8, g: u8, b: u8) -> (c: Self)
        ensures
            c == (VoxelColor { r, g, b }),
    {
        VoxelColor { r, g, b }
    }

    /// A color from 0xRRGGBB.
    pub fn from_hex(hex: u32) -> (c: Self)
        ensures
            c == hex_color(hex),
    {
        let r = ((hex >> 16u32) & 0xFF) as u8;
        let g = ((hex >> 8u32) & 0xFF) as u8;
        let b = (hex & 0xFF) as u8;
        assert(((hex >> 16u32) & 0xFF) == (hex / 0x10000) % 256 && ((hex >> 8u32) & 0xFF) == (hex / 0x100) % 256
            && (hex & 0xFF) == hex % 256) by (bit_vector);
        VoxelColor { r, g, b }
    }
}

/// A single voxel: empty or filled with a color.
#[derive(Debug, Clone, Copy, PartialEq, Eq, Structural)]
pub enum Voxel {
    Empty,
    Filled(VoxelColor),
}

impl Default for Voxel {
    fn default() -> (r: Self)
        ensures
            r == Voxel::Empty,
    {
        Voxel::Empty
    }
}

/// Face direction of a voxel.
#[derive(Debug, Clone, Copy, PartialEq, Eq, Structural)]
pub enum Face {
    /// +Y
    Top,
    /// -Y
    Bottom,
    /// +Z
    Front,
    /// -Z
    Back,
    /// +X
    Right,
    /// -X
    Left,
}

/// Unit step from a cell to its neighbor across `face`.
pub open spec fn face_step(face: Face) -> (int, int, int) {
    match face {
        Face::Top => (0, 1, 0),
        Face::Bottom => (0, -1, 0),
        Face::Front => (0, 0, 1),
        Face::Back => (0, 0, -1),
        Face::Right => (1, 0, 0),
        Face::Left => (-1, 0, 0),
    }
}

/// Whether the face of cell (x, y, z) of `m` is exposed: the neighbor one
/// step across it is empty (cells outside the grid are empty).
pub open spec fn face_exposed(m: VoxelModel, x: int, y: int, z: int, face: Face) -> bool {
    m.at(x + face_step(face).0, y + face_step(face).1, z + face_step(face).2) is Empty
}

/// Each face looks along its own axis: Top at (x, y + 1, z), Bottom at
/// (x, y - 1, z), Front at (x, y, z + 1), Back at (x, y, z - 1), Right at
/// (x + 1, y, z) and Left at (x - 1, y, z); a face on the border of the grid
/// (Left at x = 0, Bottom at y = 0, Back at z = 0, and the far sides) is
/// always exposed.
pub proof fn lemma_face_exposed_axes(m: VoxelModel, x: int, y: int, z: int)
    requires
        m.in_bounds(x, y, z),
    ensures
        face_exposed(m, x, y, z, Face::Top) == (y + 1 == m.height || m.at(x, y + 1, z) is Empty),
        face_exposed(m, x, y, z, Face::Bottom) == (y == 0 || m.at(x, y - 1, z) is Empty),
        face_exposed(m, x, y, z, Face::Front) == (z + 1 == m.depth || m.at(x, y, z + 1) is Empty),
        face_exposed(m, x, y, z, Face::Back) == (z == 0 || m.at(x, y, z - 1) is Empty),
        face_exposed(m, x, y, z, Face::Right) == (x + 1 == m.width || m.at(x + 1, y, z) is Empty),
        face_exposed(m, x, y, z, Face::Left) == (x == 0 || m.at(x - 1, y, z) is Empty),
{
}

/// A voxel grid; cell (x, y, z) is stored at `x + y * width + z * width * height`.
pub struct VoxelModel {
    pub width: usize,
    pub height: usize,
    pub depth: usize,
    pub voxels: Vec<Voxel>,
}

/// Linear position of cell (x, y, z) in a `w` x `h` layered grid.
pub open spec fn cell_index(w: int, h: int, x: int, y: int, z: int) -> int {
    x + y * w + z * (w * h)
}

/// Cell positions of an in-bounds cell are in range, and distinct cells have
/// distinct positions.
pub proof fn lemma_cell_index(w: int, h: int, d: int, x: int, y: int, z: int, a: int, b: int, c: int)
    requires
        0 <= x < w,
        0 <= y < h,
        0 <= z < d,
        0 <= a < w,
        0 <= b < h,
        0 <= c < d,
    ensures
        0 <= cell_index(w, h, x, y, z) < w * h * d,
        cell_index(w, h, x, y, z) == cell_index(w, h, a, b, c) ==> x == a && y == b && z == c,
{
    assert(0 <= x + y * w + z * (w * h) < w * h * d) by (nonlinear_arith)
        requires
            0 <= x < w,
            0 <= y < h,
            0 <= z < d,
    ;
    if cell_index(w, h, x, y, z) == cell_index(w, h, a, b, c) {
        assert(z == c) by (nonlinear_arith)
            requires
                x + y * w + z * (w * h) == a + b * w + c * (w * h),
                0 <= x < w,
                0 <= y < h,
                0 <= a < w,
                0 <= b < h,
                0 <= z,
                0 <= c,
        ;
        assert(y == b) by (nonlinear_arith)
            requires
                x + y * w == a + b * w,
                0 <= x < w,
                0 <= a < w,
                0 <= y,
                0 <= b,
        ;
    }
}

impl VoxelModel {
    /// The cell array holds exactly one entry per cell.
    pub open spec fn wf(self) -> bool {
        self.voxels@.len() == self.width * self.height * self.depth
    }

    /// Whether (x, y, z) is a cell of the grid.
    pub open spec fn in_bounds(self, x: int, y: int, z: int) -> bool {
        0 <= x < self.width && 0 <= y < self.height && 0 <= z < self.depth
    }

    /// The voxel at (x, y, z): the stored cell, or empty outside the grid.
    pub open spec fn at(self, x: int, y: int, z: int) -> Voxel {
        if self.in_bounds(x, y, z) {
            self.voxels@[cell_index(self.width as int, self.height as int, x, y, z)]
        } else {
            Voxel::Empty
        }
    }

    /// Same size as `other` and the same voxel at every cell.
    pub open spec fn same_cells(self, other: VoxelModel) -> bool {
        &&& self.width == other.width && self.height == other.height && self.depth == other.depth
        &&& self.wf() == other.wf()
        &&& forall|x: int, y: int, z: int| #[trigger] self.at(x, y, z) == other.at(x, y, z)
    }

    /// An empty model of the given size.
    pub fn new(width: usize, height: usize, depth: usize) -> (m: Self)
        requires
            width * height <= usize::MAX,
            width * height * depth <= usize::MAX,
        ensures
            m.wf(),
            m.width == width && m.height == height && m.depth == depth,
            forall|x: int, y: int, z: int| #[trigger] m.at(x, y, z) == Voxel::Empty,
    {
        let size = width * height * depth;
        let mut voxels: Vec<Voxel> = Vec::new();
        let mut i: usize = 0;
        while i < size
            invariant
                i <= size,
                voxels@.len() == i,
                forall|j: int| 0 <= j < i ==> voxels@[j] == Voxel::Empty,
            decreases size - i,
        {
            voxels.push(Voxel::Empty);
            i = i + 1;
        }
        let m = VoxelModel { width, height, depth, voxels };
        assert forall|x: int, y: int, z: int| #[trigger] m.at(x, y, z) == Voxel::Empty by {
            if m.in_bounds(x, y, z) {
                lemma_cell_index(width as int, height as int, depth as int, x, y, z, x, y, z);
            }
        }
        m
    }

    /// Position of an in-bounds cell in the array.
    fn index(&self, x: usize, y: usize, z: usize) -> (r: usize)
        requires
            self.wf(),
            self.in_bounds(x as int, y as int, z as int),
        ensures
            r == cell_index(self.width as int, self.height as int, x as int, y as int, z as int),
            r < self.voxels@.len(),
    {
        proof {
            lemma_cell_index(self.width as int, self.height as int, self.depth as int, x as int, y as int, z as int,
                x as int, y as int, z as int);
            assert(self.width * self.height <= self.width * self.height * self.depth) by (nonlinear_arith)
                requires
                    z < self.depth,
            ;
            assert(z * (self.width * self.height) <= self.width * self.height * self.depth) by (nonlinear_arith)
                requires
                    z < self.depth,
            ;
            assert(y * self.width <= self.width * self.height) by (nonlinear_arith)
                requires
                    y < self.height,
            ;
        }
        let _len = self.voxels.len();
        x + y * self.width + z * (self.width * self.height)
    }

    /// The voxel at (x, y, z); empty outside the grid.
    pub fn get(&self, x: usize, y: usize, z: usize) -> (v: Voxel)
        requires
            self.wf(),
        ensures
            v == self.at(x as int, y as int, z as int),
    {
        if x >= self.width || y >= self.height || z >= self.depth {
            return Voxel::Empty;
        }
        let i = self.index(x, y, z);
        self.voxels[i]
    }

    /// Set the voxel at (x, y, z); ignored outside the grid.
    pub fn set(&mut self, x: usize, y: usize, z: usize, voxel: Voxel)
        requires
            old(self).wf(),
        ensures
            final(self).wf(),
            final(self).width == old(self).width,
            final(self).height == old(self).height,
            final(self).depth == old(self).depth,
            forall|a: int, b: int, c: int| #[trigger] final(self).at(a, b, c) == if a == x && b == y && c == z
                && old(self).in_bounds(a, b, c) {
                voxel
            } else {
                old(self).at(a, b, c)
            },
    {
        if x < self.width && y < self.height && z < self.depth {
            let i = self.index(x, y, z);
            self.voxels.set(i, voxel);
            assert forall|a: int, b: int, c: int| #[trigger] self.at(a, b, c) == if a == x && b == y && c == z
                && old(self).in_bounds(a, b, c) {
                voxel
            } else {
                old(self).at(a, b, c)
            } by {
                if old(self).in_bounds(a, b, c) {
                    lemma_cell_index(self.width as int, self.height as int, self.depth as int, a, b, c,
                        x as int, y as int, z as int);
                }
            }
        }
    }

    /// Fill the voxel at (x, y, z) with a color; ignored outside the grid.
    pub fn set_color(&mut self, x: usize, y: usize, z: usize, color: VoxelColor)
        requires
            old(self).wf(),
        ensures
            final(self).wf(),
            final(self).width == old(self).width,
            final(self).height == old(self).height,
            final(self).depth == old(self).depth,
            forall|a: int, b: int, c: int| #[trigger] final(self).at(a, b, c) == if a == x && b == y && c == z
                && old(self).in_bounds(a, b, c) {
                Voxel::Filled(color)
            } else {
                old(self).at(a, b, c)
            },
    {
        self.set(x, y, z, Voxel::Filled(color));
    }

    /// Fill every cell of the box from (x1, y1, z1) to (x2, y2, z2), corners
    /// included, that lies in the grid.
    pub fn fill_box(&mut self, x1: usize, y1: usize, z1: usize, x2: usize, y2: usize, z2: usize, color: VoxelColor)
        requires
            old(self).wf(),
            old(self).width > 0,
            old(self).height > 0,
            old(self).depth > 0,
        ensures
            box_painted(*old(self), *final(self), x1 as int, y1 as int, z1 as int, x2 as int, y2 as int, z2 as int, color),
    {
        let zmax = if z2 < self.depth - 1 { z2 } else { self.depth - 1 };
        let ymax = if y2 < self.height - 1 { y2 } else { self.height - 1 };
        let xmax = if x2 < self.width - 1 { x2 } else { self.width - 1 };
        let ghost orig = *self;
        let mut z = z1;
        while z <= zmax
            invariant
                self.wf(),
                self.width == orig.width && self.height == orig.height && self.depth == orig.depth,
                orig == *old(self),
                zmax < self.depth,
                ymax < self.height,
                xmax < self.width,
                zmax == (if z2 < orig.depth - 1 { z2 as int } else { orig.depth - 1 }),
                ymax == (if y2 < orig.height - 1 { y2 as int } else { orig.height - 1 }),
                xmax == (if x2 < orig.width - 1 { x2 as int } else { orig.width - 1 }),
                z1 <= z,
                forall|a: int, b: int, c: int| #[trigger] self.at(a, b, c) == if x1 <= a <= xmax && y1 <= b <= ymax
                    && z1 <= c < z && c <= zmax {
                    Voxel::Filled(color)
                } else {
                    orig.at(a, b, c)
                },
            decreases zmax + 1 - z,
        {
            let mut y = y1;
            while y <= ymax
                invariant
                    self.wf(),
                    self.width == orig.width && self.height == orig.height && self.depth == orig.depth,
                    zmax < self.depth,
                    ymax < self.height,
                    xmax < self.width,
                    z1 <= z <= zmax,
                    y1 <= y,
                    forall|a: int, b: int, c: int| #[trigger] self.at(a, b, c) == if x1 <= a <= xmax && y1 <= b <= ymax
                        && (z1 <= c < z || (c == z && b < y)) {
                        Voxel::Filled(color)
                    } else {
                        orig.at(a, b, c)
                    },
                decreases ymax + 1 - y,
            {
                let mut x = x1;
                while x <= xmax
                    invariant
                        self.wf(),
                        self.width == orig.width && self.height == orig.height && self.depth == orig.depth,
                        zmax < self.depth,
                        ymax < self.height,
                        xmax < self.width,
                        z1 <= z <= zmax,
                        y1 <= y <= ymax,
                        x1 <= x,
                        forall|a: int, b: int, c: int| #[trigger] self.at(a, b, c) == if x1 <= a <= xmax && y1 <= b <= ymax
                            && (z1 <= c < z || (c == z && (b < y || (b == y && a < x)))) {
                            Voxel::Filled(color)
                        } else {
                            orig.at(a, b, c)
                        },
                    decreases xmax + 1 - x,
                {
                    self.set_color(x, y, z, color);
                    x = x + 1;
                }
                y = y + 1;
            }
            z = z + 1;
        }
    }

    /// Whether the face of cell (x, y, z) is exposed: its neighbor across the
    /// face is outside the grid or empty.
    pub fn face_visible(&self, x: usize, y: usize, z: usize, face: Face) -> (r: bool)
        requires
            self.wf(),
            self.in_bounds(x as int, y as int, z as int),
            self.width <= i32::MAX && self.height <= i32::MAX && self.depth <= i32::MAX,
        ensures
            r == (self.at(x + face_step(face).0, y + face_step(face).1, z + face_step(face).2) is Empty),
            r == face_exposed(*self, x as int, y as int, z as int, face),
            face == Face::Left ==> r == (x == 0 || self.at(x - 1, y as int, z as int) is Empty),
            face == Face::Right ==> r == (x + 1 == self.width || self.at(x + 1, y as int, z as int) is Empty),
            face == Face::Bottom ==> r == (y == 0 || self.at(x as int, y - 1, z as int) is Empty),
            face == Face::Top ==> r == (y + 1 == self.height || self.at(x as int, y + 1, z as int) is Empty),
            face == Face::Back ==> r == (z == 0 || self.at(x as int, y as int, z - 1) is Empty),
            face == Face::Front ==> r == (z + 1 == self.depth || self.at(x as int, y as int, z + 1) is Empty),
    {
        proof {
            lemma_face_exposed_axes(*self, x as int, y as int, z as int);
        }
        let xi = x as i32;
        let yi = y as i32;
        let zi = z as i32;
        let (nx, ny, nz): (i32, i32, i32) = match face {
            Face::Top => (xi, yi + 1, zi),
            Face::Bottom => (xi, yi - 1, zi),
            Face::Front => (xi, yi, zi + 1),
            Face::Back => (xi, yi, zi - 1),
            Face::Right => (xi + 1, yi, zi),
            Face::Left => (xi - 1, yi, zi),
        };
        if nx < 0 || ny < 0 || nz < 0 {
            return true;
        }
        if nx >= self.width as i32 || ny >= self.height as i32 || nz >= self.depth as i32 {
            return true;
        }
        match self.get(nx as usize, ny as usize, nz as usize) {
            Voxel::Empty => true,
            _ => false,
        }
    }

    /// Number of filled voxels.
    pub fn voxel_count(&self) -> (r: usize)
        ensures
            r == count_filled(self.voxels@),
    {
        let n = self.voxels.len();
        let mut c: usize = 0;
        let mut i: usize = 0;
        while i < n
            invariant
                n == self.voxels@.len(),
                i <= n,
                c == count_filled(self.voxels@.take(i as int)),
                c <= i,
            decreases n - i,
        {
            assert(self.voxels@.take(i + 1).drop_last() =~= self.voxels@.take(i as int));
            match self.voxels[i] {
                Voxel::Filled(_) => {
                    c = c + 1;
                },
                Voxel::Empty => {},
            }
            i = i + 1;
        }
        assert(self.voxels@.take(n as int) =~= self.voxels@);
        c
    }

    /// Copy the filled voxels of `other` into this model, shifted by the offset;
    /// voxels landing at negative coordinates or outside the grid are dropped.
    pub fn merge(&mut self, other: &VoxelModel, offset_x: i32, offset_y: i32, offset_z: i32)
        requires
            old(self).wf(),
            other.wf(),
            other.width <= i32::MAX && other.height <= i32::MAX && other.depth <= i32::MAX,
            other.width > 0 ==> other.width - 1 + offset_x <= i32::MAX,
            other.height > 0 ==> other.height - 1 + offset_y <= i32::MAX,
            other.depth > 0 ==> other.depth - 1 + offset_z <= i32::MAX,
        ensures
            merged_into(*old(self), *final(self), *other, offset_x as int, offset_y as int, offset_z as int),
    {
        let ghost orig = *self;
        let mut z: usize = 0;
        while z < other.depth
            invariant
                self.wf(),
                other.wf(),
                orig == *old(self),
                self.width == orig.width && self.height == orig.height && self.depth == orig.depth,
                z <= other.depth,
                other.width <= i32::MAX && other.height <= i32::MAX && other.depth <= i32::MAX,
                other.width > 0 ==> other.width - 1 + offset_x <= i32::MAX,
                other.height > 0 ==> other.height - 1 + offset_y <= i32::MAX,
                other.depth > 0 ==> other.depth - 1 + offset_z <= i32::MAX,
                forall|a: int, b: int, c: int| #[trigger] self.at(a, b, c) == if orig.in_bounds(a, b, c)
                    && c - offset_z < z && other.at(a - offset_x, b - offset_y, c - offset_z) is Filled {
                    other.at(a - offset_x, b - offset_y, c - offset_z)
                } else {
                    orig.at(a, b, c)
                },
            decreases other.depth - z,
        {
            let mut y: usize = 0;
            while y < other.height
                invariant
                    self.wf(),
                    other.wf(),
                    self.width == orig.width && self.height == orig.height && self.depth == orig.depth,
                    z < other.depth,
                    y <= other.height,
                    other.width <= i32::MAX && other.height <= i32::MAX && other.depth <= i32::MAX,
                    other.width > 0 ==> other.width - 1 + offset_x <= i32::MAX,
                    other.height > 0 ==> other.height - 1 + offset_y <= i32::MAX,
                    other.depth > 0 ==> other.depth - 1 + offset_z <= i32::MAX,
                    forall|a: int, b: int, c: int| #[trigger] self.at(a, b, c) == if orig.in_bounds(a, b, c)
                        && (c - offset_z < z || (c - offset_z == z && b - offset_y < y))
                        && other.at(a - offset_x, b - offset_y, c - offset_z) is Filled {
                        other.at(a - offset_x, b - offset_y, c - offset_z)
                    } else {
                        orig.at(a, b, c)
                    },
                decreases other.height - y,
            {
                let mut x: usize = 0;
                while x < other.width
                    invariant
                        self.wf(),
                        other.wf(),
                        self.width == orig.width && self.height == orig.height && self.depth == orig.depth,
                        z < other.depth,
                        y < other.height,
                        x <= other.width,
                        other.width <= i32::MAX && other.height <= i32::MAX && other.depth <= i32::MAX,
                        other.width > 0 ==> other.width - 1 + offset_x <= i32::MAX,
                        other.height > 0 ==> other.height - 1 + offset_y <= i32::MAX,
                        other.depth > 0 ==> other.depth - 1 + offset_z <= i32::MAX,
                        forall|a: int, b: int, c: int| #[trigger] self.at(a, b, c) == if orig.in_bounds(a, b, c)
                            && (c - offset_z < z || (c - offset_z == z && (b - offset_y < y
                                || (b - offset_y == y && a - offset_x < x))))
                            && other.at(a - offset_x, b - offset_y, c - offset_z) is Filled {
                            other.at(a - offset_x, b - offset_y, c - offset_z)
                        } else {
                            orig.at(a, b, c)
                        },
                    decreases other.width - x,
                {
                    let voxel = other.get(x, y, z);
                    match voxel {
                        Voxel::Filled(_) => {
                            let nx = x as i32 + offset_x;
                            let ny = y as i32 + offset_y;
                            let nz = z as i32 + offset_z;
                            if nx >= 0 && ny >= 0 && nz >= 0 {
                                self.set(nx as usize, ny as usize, nz as usize, voxel);
                            }
                        },
                        Voxel::Empty => {},
                    }
                    x = x + 1;
                }
                y = y + 1;
            }
            z = z + 1;
        }
    }
}

/// The voxel at (x, y, z) once the box from (b.0, b.1, b.2) to (b.3, b.4,
/// b.5), corners included, is painted in `color` over `below`: the color
/// inside the box, `below` elsewhere. A model built box by box is a chain
/// of these, the last box painted on top.
pub open spec fn over(below: Voxel, x: int, y: int, z: int, b: (int, int, int, int, int, int), color: VoxelColor) -> Voxel {
    if b.0 <= x <= b.3 && b.1 <= y <= b.4 && b.2 <= z <= b.5 {
        Voxel::Filled(color)
    } else {
        below
    }
}

/// The voxel at (x, y, z) once the cells (x0, py, pz), (x0 + step, py, pz),
/// ... before column `x_end` are painted in `color` over `below`.
pub open spec fn over_stripe(below: Voxel, x: int, y: int, z: int, x0: int, step: int, x_end: int, py: int, pz: int, color: VoxelColor) -> Voxel {
    if x0 <= x < x_end && (x - x0) % step == 0 && y == py && z == pz {
        Voxel::Filled(color)
    } else {
        below
    }
}

/// `after` is `before` with every cell of the box from (x1, y1, z1) to
/// (x2, y2, z2), corners included, that lies in the grid filled with `color`.
pub open spec fn box_painted(before: VoxelModel, after: VoxelModel, x1: int, y1: int, z1: int, x2: int, y2: int,
    z2: int, color: VoxelColor) -> bool {
    &&& after.wf()
    &&& after.width == before.width && after.height == before.height && after.depth == before.depth
    &&& forall|a: int, b: int, c: int| #[trigger] after.at(a, b, c) == if x1 <= a <= x2 && y1 <= b <= y2
        && z1 <= c <= z2 && before.in_bounds(a, b, c) {
        Voxel::Filled(color)
    } else {
        before.at(a, b, c)
    }
}

/// `after` is `before` with the filled voxels of `other`, shifted by the
/// offset, copied over it where they land in the grid.
pub open spec fn merged_into(before: VoxelModel, after: VoxelModel, other: VoxelModel, ox: int, oy: int, oz: int) -> bool {
    &&& after.wf()
    &&& after.width == before.width && after.height == before.height && after.depth == before.depth
    &&& forall|a: int, b: int, c: int| #[trigger] after.at(a, b, c) == if before.in_bounds(a, b, c)
        && other.at(a - ox, b - oy, c - oz) is Filled {
        other.at(a - ox, b - oy, c - oz)
    } else {
        before.at(a, b, c)
    }
}

/// Filling the same box with the same color a second time changes nothing.
pub proof fn lemma_fill_box_idempotent(m0: VoxelModel, m1: VoxelModel, m2: VoxelModel, x1: int, y1: int, z1: int,
    x2: int, y2: int, z2: int, color: VoxelColor)
    requires
        box_painted(m0, m1, x1, y1, z1, x2, y2, z2, color),
        box_painted(m1, m2, x1, y1, z1, x2, y2, z2, color),
    ensures
        m2.same_cells(m1),
{
    assert forall|a: int, b: int, c: int| #[trigger] m2.at(a, b, c) == m1.at(a, b, c) by {
        assert(m1.at(a, b, c) == if x1 <= a <= x2 && y1 <= b <= y2 && z1 <= c <= z2 && m0.in_bounds(a, b, c) {
            Voxel::Filled(color)
        } else {
            m0.at(a, b, c)
        });
    }
}

/// Merging a model with no filled voxel changes nothing.
pub proof fn lemma_merge_empty(before: VoxelModel, after: VoxelModel, other: VoxelModel, ox: int, oy: int, oz: int)
    requires
        before.wf(),
        merged_into(before, after, other, ox, oy, oz),
        forall|x: int, y: int, z: int| #[trigger] other.at(x, y, z) == Voxel::Empty,
    ensures
        after.same_cells(before),
{
    assert forall|a: int, b: int, c: int| #[trigger] after.at(a, b, c) == before.at(a, b, c) by {
        assert(other.at(a - ox, b - oy, c - oz) == Voxel::Empty);
    }
}

/// Number of filled cells in a cell array.
pub open spec fn count_filled(s: Seq<Voxel>) -> nat
    decreases s.len(),
{
    if s.len() == 0 {
        0
    } else {
        count_filled(s.drop_last()) + if s.last() is Filled { 1nat } else { 0nat }
    }
}

/// Character customization slots.
#[derive(Debug, Clone, Copy, PartialEq, Eq, Structural)]
pub struct CharacterCustomization {
    /// 0-2 (light, medium, dark)
    pub skin_tone: u8,
    /// 0-3
    pub hair_style: u8,
    /// 0-3 (black, brown, blonde, red)
    pub hair_color: u8,
    /// 0-3
    pub shirt_color: u8,
    /// 0-2
    pub pants_color: u8,
    /// 0-1
    pub shoes_color: u8,
    /// 0-3 (none, small, medium, large)
    pub backpack_style: u8,
    /// 0-3
    pub glider_style: u8,
}

impl Default for CharacterCustomization {
    fn default() -> (r: Self)
        ensures
            r == (CharacterCustomization {
                skin_tone: 0,
                hair_style: 0,
                hair_color: 0,
                shirt_color: 0,
                pants_color: 0,
                shoes_color: 0,
                backpack_style: 1,
                glider_style: 0,
            }),
    {
        CharacterCustomization {
            skin_tone: 0,
            hair_style: 0,
            hair_color: 0,
            shirt_color: 0,
            pants_color: 0,
            shoes_color: 0,
            backpack_style: 1,
            glider_style: 0,
        }
    }
}

/// Skin color for a tone: light, medium, or dark for any other value.
pub open spec fn skin_hex(tone: u8) -> u32 {
    match tone {
        0 => palette::SKIN_LIGHT,
        1 => palette::SKIN_MEDIUM,
        _ => palette::SKIN_DARK,
    }
}

/// Hair color: black, brown, blonde, or red for any other value.
pub open spec fn hair_hex(choice: u8) -> u32 {
    match choice {
        0 => palette::HAIR_BLACK,
        1 => palette::HAIR_BROWN,
        2 => palette::HAIR_BLONDE,
        _ => palette::HAIR_RED,
    }
}

/// Shirt color: blue, red, green, or white for any other value.
pub open spec fn shirt_hex(choice: u8) -> u32 {
    match choice {
        0 => palette::SHIRT_BLUE,
        1 => palette::SHIRT_RED,
        2 => palette::SHIRT_GREEN,
        _ => palette::SHIRT_WHITE,
    }
}

/// Pants color: blue, black, or brown for any other value.
pub open spec fn pants_hex(choice: u8) -> u32 {
    match choice {
        0 => palette::PANTS_BLUE,
        1 => palette::PANTS_BLACK,
        _ => palette::PANTS_BROWN,
    }
}

/// Shoes color: black, or brown for any other value.
pub open spec fn shoes_hex(choice: u8) -> u32 {
    if choice == 0 { palette::SHOES_BLACK } else { palette::SHOES_BROWN }
}

impl CharacterCustomization {
    /// Skin color: light, medium, or dark for any other value.
    pub fn skin_color(&self) -> (c: VoxelColor)
        ensures
            c == hex_color(skin_hex(self.skin_tone)),
    {
        VoxelColor::from_hex(match self.skin_tone {
            0 => palette::SKIN_LIGHT,
            1 => palette::SKIN_MEDIUM,
            _ => palette::SKIN_DARK,
        })
    }

    /// Hair color: black, brown, blonde, or red for any other value.
    pub fn hair_color(&self) -> (c: VoxelColor)
        ensures
            c == hex_color(hair_hex(self.hair_color)),
    {
        VoxelColor::from_hex(match self.hair_color {
            0 => palette::HAIR_BLACK,
            1 => palette::HAIR_BROWN,
            2 => palette::HAIR_BLONDE,
            _ => palette::HAIR_RED,
        })
    }

    /// Shirt color: blue, red, green, or white for any other value.
    pub fn shirt_color(&self) -> (c: VoxelColor)
        ensures
            c == hex_color(shirt_hex(self.shirt_color)),
    {
        VoxelColor::from_hex(match self.shirt_color {
            0 => palette::SHIRT_BLUE,
            1 => palette::SHIRT_RED,
            2 => palette::SHIRT_GREEN,
            _ => palette::SHIRT_WHITE,
        })
    }

    /// Pants color: blue, black, or brown for any other value.
    pub fn pants_color(&self) -> (c: VoxelColor)
        ensures
            c == hex_color(pants_hex(self.pants_color)),
    {
        VoxelColor::from_hex(match self.pants_color {
            0 => palette::PANTS_BLUE,
            1 => palette::PANTS_BLACK,
            _ => palette::PANTS_BROWN,
        })
    }

    /// Shoes color: black, or brown for any other value.
    pub fn shoes_color(&self) -> (c: VoxelColor)
        ensures
            c == hex_color(shoes_hex(self.shoes_color)),
    {
        VoxelColor::from_hex(if self.shoes_color == 0 { palette::SHOES_BLACK } else { palette::SHOES_BROWN })
    }
}

} // verus!
