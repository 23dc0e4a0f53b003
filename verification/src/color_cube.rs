use vstd::prelude::*;
use vstd::pervasive::VecAdditionalExecFns;

use crate::image::{Color, Image};
use crate::render::{InstanceData, InstancedMesh};
use crate::GlcError;

verus! {

/// A strictly positive rational, used for the histogram threshold.
#[derive(Clone, Copy, PartialEq, Eq, Structural, Debug)]
pub struct Ratio {
    pub num: u32,
    pub den: u32,
}

impl Ratio {
    pub open spec fn wf(self) -> bool {
        self.num >= 1 && self.den >= 1
    }
}

/// The number of voxels a cube of the given resolution holds.
pub open spec fn cube_count(r: int) -> int {
    r * r * r
}

/// Static configuration of the color cube: grid resolution and the density
/// threshold at which a voxel reaches full scale.
#[derive(Clone, Copy, PartialEq, Eq, Structural, Debug)]
pub struct ColorCube {
    pub resolution: u32,
    pub threshold: Ratio,
}

impl ColorCube {
    pub open spec fn wf(self) -> bool {
        &&& self.resolution >= 2
        &&& self.threshold.wf()
        &&& cube_count(self.resolution as int) <= usize::MAX
    }

    pub open spec fn instance_count(self) -> int {
        cube_count(self.resolution as int)
    }
}

/// Recompute the voxel scales from the current image.
#[derive(Clone, Copy, PartialEq, Eq, Structural, Debug)]
pub struct UpdateColorCubeEvent;

/// The flattened index of the voxel at grid coordinates `(xi, yi, zi)`.
pub open spec fn flatten_index(r: int, xi: int, yi: int, zi: int) -> int {
    xi * r * r + yi * r + zi
}

/// The instance a freshly built cube holds at flattened index `i`: the grid
/// coordinates unflattened from `i`, at full occupancy.
pub open spec fn initial_instance(r: int, i: int) -> InstanceData {
    InstanceData {
        xi: (i / r / r) as u32,
        yi: ((i / r) % r) as u32,
        zi: (i % r) as u32,
        occ_num: 1,
        occ_den: 1,
    }
}

/// Which bucket one channel value falls in: the channel intensity `ch / 255`
/// scaled by the resolution, rounded down and clamped into `[0, r - 1]`.
pub open spec fn channel_bucket(r: int, ch: int) -> int {
    let b = (ch * r) / 255;
    if b < 0 {
        0
    } else if b > r - 1 {
        r - 1
    } else {
        b
    }
}

/// The voxel a pixel's color falls in (alpha is ignored).
pub open spec fn bucket_index(r: int, c: Color) -> int {
    flatten_index(
        r,
        channel_bucket(r, c.r as int),
        channel_bucket(r, c.g as int),
        channel_bucket(r, c.b as int),
    )
}

/// How many pixels of the image fall in the given voxel's bucket.
pub open spec fn count_in_bucket(data: Seq<Color>, r: int, idx: int) -> nat
    decreases data.len(),
{
    if data.len() == 0 {
        0
    } else {
        count_in_bucket(data.drop_last(), r, idx) + if bucket_index(r, data.last()) == idx {
            1nat
        } else {
            0nat
        }
    }
}

/// The denominator of the normalized occupancy: `threshold * pixel_count`
/// in `threshold.den`-ths, or 1 for a zero-pixel image so that no division
/// by zero can arise.
pub open spec fn occ_den_spec(t: Ratio, pc: int) -> int {
    if pc == 0 {
        1
    } else {
        t.num * pc
    }
}

/// The numerator of the normalized occupancy: the bucket's raw count scaled
/// by `threshold.den`, clamped to the denominator (occupancy never exceeds
/// 1, so the voxel scale never exceeds the grid step).  A zero-pixel image
/// yields zero occupancy everywhere.
pub open spec fn occ_num_spec(cnt: int, t: Ratio, pc: int) -> int {
    if pc == 0 {
        0
    } else if cnt * t.den >= t.num * pc {
        t.num * pc
    } else {
        cnt * t.den
    }
}

/// A voxel after the histogram update: same grid coordinates, occupancy
/// recomputed from the bucket count.
pub open spec fn updated_instance(inst: InstanceData, cnt: int, t: Ratio, pc: int) -> InstanceData {
    InstanceData {
        xi: inst.xi,
        yi: inst.yi,
        zi: inst.zi,
        occ_num: occ_num_spec(cnt, t, pc) as u128,
        occ_den: occ_den_spec(t, pc) as u128,
    }
}

/// The whole instance list after the histogram update on the given image.
pub open spec fn updated_mesh(
    mesh: Seq<InstanceData>,
    data: Seq<Color>,
    r: int,
    t: Ratio,
    pc: int,
) -> Seq<InstanceData> {
    Seq::new(mesh.len(), |i: int| updated_instance(mesh[i], count_in_bucket(data, r, i) as int, t, pc))
}

/// The instance list carries exactly the cube's grid, one voxel per
/// flattened index, each with a well-formed occupancy.
pub open spec fn mesh_matches_cube(mesh: InstancedMesh, cube: ColorCube) -> bool {
    &&& mesh.0@.len() == cube.instance_count()
    &&& forall|i: int|
        0 <= i < mesh.0@.len() ==> {
            let inst = #[trigger] mesh.0@[i];
            let init = initial_instance(cube.resolution as int, i);
            inst.xi == init.xi && inst.yi == init.yi && inst.zi == init.zi && inst.occ_wf()
        }
}

/// Bound on a product of non-negative values from bounds on its factors.
proof fn lemma_mul_le(a: int, b: int, bound_a: int, bound_b: int)
    requires
        0 <= a <= bound_a,
        0 <= b <= bound_b,
    ensures
        0 <= a * b <= bound_a * bound_b,
{
    assert(0 <= a * b <= bound_a * bound_b) by (nonlinear_arith)
        requires
            0 <= a <= bound_a,
            0 <= b <= bound_b,
    ;
}

/// Grid coordinates below `r` flatten into `[0, r^3)` and unflatten back to
/// themselves.
pub proof fn lemma_flatten_unflatten(r: int, xi: int, yi: int, zi: int)
    requires
        2 <= r,
        0 <= xi < r,
        0 <= yi < r,
        0 <= zi < r,
    ensures
        0 <= flatten_index(r, xi, yi, zi) < cube_count(r),
        flatten_index(r, xi, yi, zi) / r / r == xi,
        (flatten_index(r, xi, yi, zi) / r) % r == yi,
        flatten_index(r, xi, yi, zi) % r == zi,
{
    let i = flatten_index(r, xi, yi, zi);
    assert(xi * r * r + yi * r + zi == (xi * r + yi) * r + zi) by (nonlinear_arith);
    assert(0 <= xi * r + yi < r * r) by (nonlinear_arith)
        requires
            0 <= xi < r,
            0 <= yi < r,
            2 <= r,
    ;
    vstd::arithmetic::div_mod::lemma_fundamental_div_mod_converse(i, r, xi * r + yi, zi);
    vstd::arithmetic::div_mod::lemma_fundamental_div_mod_converse(xi * r + yi, r, xi, yi);
    assert(0 <= xi * r * r + yi * r + zi < r * r * r) by (nonlinear_arith)
        requires
            0 <= xi < r,
            0 <= yi < r,
            0 <= zi < r,
            2 <= r,
    ;
}

/// Any flattened index is reconstructed from its unflattened coordinates.
pub proof fn lemma_unflatten_flatten(r: int, i: int)
    requires
        2 <= r,
        0 <= i < cube_count(r),
    ensures
        flatten_index(r, i / r / r, (i / r) % r, i % r) == i,
        0 <= i / r / r < r,
        0 <= (i / r) % r < r,
        0 <= i % r < r,
{
    let q = i / r;
    vstd::arithmetic::div_mod::lemma_fundamental_div_mod(i, r);
    vstd::arithmetic::div_mod::lemma_mod_division_less_than_divisor(i, r);
    assert(0 <= q) by {
        vstd::arithmetic::div_mod::lemma_div_pos_is_pos(i, r);
    }
    assert(i < r * (r * r)) by (nonlinear_arith)
        requires
            i < r * r * r,
    ;
    assert(q < r * r) by {
        vstd::arithmetic::div_mod::lemma_multiply_divide_lt(i, r, r * r);
    }
    vstd::arithmetic::div_mod::lemma_fundamental_div_mod(q, r);
    vstd::arithmetic::div_mod::lemma_mod_division_less_than_divisor(q, r);
    assert(0 <= q / r) by {
        vstd::arithmetic::div_mod::lemma_div_pos_is_pos(q, r);
    }
    assert(q < r * r) by (nonlinear_arith)
        requires
            q < r * r,
    ;
    assert(q / r < r) by {
        vstd::arithmetic::div_mod::lemma_multiply_divide_lt(q, r, r);
    }
    assert((q / r) * r * r + (q % r) * r + i % r == i) by (nonlinear_arith)
        requires
            i == r * q + i % r,
            q == r * (q / r) + q % r,
    ;
}

/// Distinct flattened indices name distinct grid positions: the builder's
/// voxels all sit at different grid points.
pub proof fn lemma_instance_positions_unique(r: int, i: int, j: int)
    requires
        2 <= r <= u32::MAX,
        0 <= i < cube_count(r),
        0 <= j < cube_count(r),
        i != j,
    ensures
        initial_instance(r, i) != initial_instance(r, j),
{
    lemma_unflatten_flatten(r, i);
    lemma_unflatten_flatten(r, j);
    if initial_instance(r, i) == initial_instance(r, j) {
        assert(i / r / r == j / r / r);
        assert((i / r) % r == (j / r) % r);
        assert(i % r == j % r);
        assert(false);
    }
}

/// A pixel's bucket is always one of the cube's voxels.
pub proof fn lemma_bucket_index_in_range(r: int, c: Color)
    requires
        2 <= r,
    ensures
        0 <= bucket_index(r, c) < cube_count(r),
{
    let xb = channel_bucket(r, c.r as int);
    let yb = channel_bucket(r, c.g as int);
    let zb = channel_bucket(r, c.b as int);
    assert(0 <= xb < r && 0 <= yb < r && 0 <= zb < r);
    lemma_flatten_unflatten(r, xb, yb, zb);
}

/// The sum of the bucket counts over the first `n` voxels.
pub open spec fn bucket_sum(data: Seq<Color>, r: int, n: int) -> nat
    decreases n,
{
    if n <= 0 {
        0
    } else {
        bucket_sum(data, r, n - 1) + count_in_bucket(data, r, n - 1)
    }
}

proof fn lemma_bucket_sum_empty(r: int, n: int)
    ensures
        bucket_sum(Seq::<Color>::empty(), r, n) == 0,
    decreases n,
{
    if n > 0 {
        lemma_bucket_sum_empty(r, n - 1);
    }
}

proof fn lemma_bucket_sum_drop_last(data: Seq<Color>, r: int, n: int)
    requires
        data.len() > 0,
    ensures
        bucket_sum(data, r, n) == bucket_sum(data.drop_last(), r, n) + if 0 <= bucket_index(
            r,
            data.last(),
        ) < n {
            1nat
        } else {
            0nat
        },
    decreases n,
{
    if n > 0 {
        lemma_bucket_sum_drop_last(data, r, n - 1);
    }
}

/// Every pixel contributes to exactly one bucket: summed over all voxels,
/// the raw accumulation counts every pixel once.
pub proof fn lemma_accumulation_partitions_pixels(data: Seq<Color>, r: int)
    requires
        2 <= r,
    ensures
        bucket_sum(data, r, cube_count(r)) == data.len(),
    decreases data.len(),
{
    if data.len() == 0 {
        assert(data =~= Seq::<Color>::empty());
        lemma_bucket_sum_empty(r, cube_count(r));
    } else {
        lemma_accumulation_partitions_pixels(data.drop_last(), r);
        lemma_bucket_sum_drop_last(data, r, cube_count(r));
        lemma_bucket_index_in_range(r, data.last());
    }
}

/// The normalized occupancy is clamped to `[0, 1]`: a voxel's scale lies
/// between zero and the grid step, whatever the image holds.
pub proof fn lemma_scale_clamped(cnt: int, t: Ratio, pc: int)
    requires
        t.wf(),
        0 <= cnt,
        0 <= pc,
    ensures
        1 <= occ_den_spec(t, pc),
        0 <= occ_num_spec(cnt, t, pc) <= occ_den_spec(t, pc),
{
    if pc > 0 {
        assert(t.num * pc >= 1) by (nonlinear_arith)
            requires
                t.num >= 1,
                pc >= 1,
        ;
        assert(cnt * t.den >= 0) by (nonlinear_arith)
            requires
                cnt >= 0,
                t.den >= 1,
        ;
    }
}

/// Running the histogram update twice in a row on the same image yields the
/// scales of a single run: scales are recomputed from zero, never
/// accumulated on top of the previous run.
pub proof fn lemma_update_idempotent(
    mesh: Seq<InstanceData>,
    data: Seq<Color>,
    r: int,
    t: Ratio,
    pc: int,
)
    ensures
        updated_mesh(updated_mesh(mesh, data, r, t, pc), data, r, t, pc) == updated_mesh(
            mesh,
            data,
            r,
            t,
            pc,
        ),
{
    assert(updated_mesh(updated_mesh(mesh, data, r, t, pc), data, r, t, pc) =~= updated_mesh(
        mesh,
        data,
        r,
        t,
        pc,
    ));
}

/// A zero-pixel image yields an all-zero-scale cube, with denominator 1:
/// no division by zero and no undefined occupancy anywhere.
pub proof fn lemma_zero_pixels_zero_scales(
    mesh: Seq<InstanceData>,
    data: Seq<Color>,
    r: int,
    t: Ratio,
)
    ensures
        forall|i: int|
            0 <= i < mesh.len() ==> (#[trigger] updated_mesh(mesh, data, r, t, 0)[i]).occ_num == 0
                && updated_mesh(mesh, data, r, t, 0)[i].occ_den == 1,
{
}

fn channel_bucket_of(resolution: u32, ch: u8) -> (b: u64)
    requires
        resolution >= 2,
    ensures
        b == channel_bucket(resolution as int, ch as int),
        b <= resolution - 1,
{
    let r = resolution as u64;
    proof {
        lemma_mul_le(ch as int, r as int, 255, 0xffff_ffff);
    }
    let v = (ch as u64) * r;
    let b = v / 255;
    if b > r - 1 {
        r - 1
    } else {
        b
    }
}

fn bucket_index_of(resolution: u32, c: Color) -> (idx: usize)
    requires
        resolution >= 2,
        cube_count(resolution as int) <= usize::MAX,
    ensures
        idx == bucket_index(resolution as int, c),
        idx < cube_count(resolution as int),
{
    let r = resolution as u64;
    let xb = channel_bucket_of(resolution, c.r);
    let yb = channel_bucket_of(resolution, c.g);
    let zb = channel_bucket_of(resolution, c.b);
    proof {
        assert(0 <= xb * r <= r * r && 0 <= xb * r * r && 0 <= yb * r && xb * r * r + yb * r + zb
            < r * r * r && r * r <= r * r * r) by (nonlinear_arith)
            requires
                0 <= xb < r,
                0 <= yb < r,
                0 <= zb < r,
                2 <= r,
        ;
        assert(cube_count(resolution as int) == r * r * r);
    }
    let idx = xb * r * r + yb * r + zb;
    idx as usize
}

/// Build the instance grid for a cube of the given resolution: one voxel per
/// grid point, positioned at its coordinates and at full occupancy, in
/// flattened index order.
pub fn create_instance_data(resolution: u32) -> (data: Vec<InstanceData>)
    requires
        resolution >= 2,
        cube_count(resolution as int) <= usize::MAX,
    ensures
        data@.len() == cube_count(resolution as int),
        forall|i: int| 0 <= i < data@.len() ==> data@[i] == initial_instance(resolution as int, i),
        forall|xi: int, yi: int, zi: int|
            0 <= xi < resolution && 0 <= yi < resolution && 0 <= zi < resolution ==> data@[
                flatten_index(resolution as int, xi, yi, zi)
            ] == (InstanceData {
                xi: xi as u32,
                yi: yi as u32,
                zi: zi as u32,
                occ_num: 1,
                occ_den: 1,
            }),
{
    let r = resolution as u64;
    proof {
        assert(r * r <= r * r * r) by (nonlinear_arith)
            requires
                2 <= r,
        ;
    }
    let n64 = r * r * r;
    let n = n64 as usize;
    let mut data: Vec<InstanceData> = Vec::new();
    let mut i: usize = 0;
    while i < n
        invariant
            2 <= r <= u32::MAX,
            r == resolution,
            n == cube_count(r as int),
            n <= usize::MAX,
            i <= n,
            data@.len() == i,
            forall|j: int| 0 <= j < i ==> data@[j] == initial_instance(r as int, j),
        decreases n - i,
    {
        let iv = i as u64;
        let zi = iv % r;
        let q = iv / r;
        let yi = q % r;
        let xi = q / r;
        proof {
            lemma_unflatten_flatten(r as int, i as int);
        }
        data.push(
            InstanceData { xi: xi as u32, yi: yi as u32, zi: zi as u32, occ_num: 1, occ_den: 1 },
        );
        i += 1;
    }
    proof {
        assert forall|xi: int, yi: int, zi: int|
            0 <= xi < resolution && 0 <= yi < resolution && 0 <= zi < resolution implies data@[
            flatten_index(resolution as int, xi, yi, zi)
        ] == (InstanceData {
            xi: xi as u32,
            yi: yi as u32,
            zi: zi as u32,
            occ_num: 1,
            occ_den: 1,
        }) by {
            let rr = resolution as int;
            let f = flatten_index(rr, xi, yi, zi);
            lemma_flatten_unflatten(rr, xi, yi, zi);
            assert(data@[f] == initial_instance(rr, f));
            assert(initial_instance(rr, f).xi == xi as u32);
            assert(initial_instance(rr, f).yi == yi as u32);
            assert(initial_instance(rr, f).zi == zi as u32);
        }
    }
    data
}

/// Build a color cube, validating its configuration: the resolution must be
/// at least 2, the threshold strictly positive, and the grid small enough to
/// hold in memory.
pub fn create_color_cube(resolution: u32, threshold: Ratio) -> (result: Result<
    (ColorCube, InstancedMesh),
    GlcError,
>)
    ensures
        resolution < 2 ==> result == Err::<(ColorCube, InstancedMesh), GlcError>(
            GlcError::ResolutionTooSmall,
        ),
        resolution >= 2 && !threshold.wf() ==> result == Err::<(ColorCube, InstancedMesh), GlcError>(
            GlcError::ThresholdNotPositive,
        ),
        resolution >= 2 && threshold.wf() && cube_count(resolution as int) > usize::MAX ==> result
            == Err::<(ColorCube, InstancedMesh), GlcError>(GlcError::CubeTooLarge),
        resolution >= 2 && threshold.wf() && cube_count(resolution as int) <= usize::MAX ==> {
            &&& result matches Ok(pair)
            &&& result->Ok_0.0 == (ColorCube { resolution, threshold })
            &&& result->Ok_0.0.wf()
            &&& result->Ok_0.1.0@.len() == cube_count(resolution as int)
            &&& forall|i: int|
                0 <= i < result->Ok_0.1.0@.len() ==> result->Ok_0.1.0@[i] == initial_instance(
                    resolution as int,
                    i,
                )
            &&& mesh_matches_cube(result->Ok_0.1, result->Ok_0.0)
        },
{
    if resolution < 2 {
        return Err(GlcError::ResolutionTooSmall);
    }
    if threshold.num < 1 || threshold.den < 1 {
        return Err(GlcError::ThresholdNotPositive);
    }
    let r128 = resolution as u128;
    proof {
        lemma_mul_le(r128 as int, r128 as int, 0xffff_ffff, 0xffff_ffff);
        lemma_mul_le((r128 * r128) as int, r128 as int, 0xffff_ffff_ffff_ffff, 0xffff_ffff);
    }
    let n128 = r128 * r128 * r128;
    if n128 > usize::MAX as u128 {
        return Err(GlcError::CubeTooLarge);
    }
    let cube = ColorCube { resolution, threshold };
    let data = create_instance_data(resolution);
    let mesh = InstancedMesh(data);
    Ok((cube, mesh))
}

/// Recompute every voxel's scale from the image's pixel data, so voxel size
/// encodes normalized pixel density in that color bucket: reset, accumulate
/// one step per pixel into the pixel's bucket, then normalize by
/// `threshold * pixel_count` and clamp to the grid step.
pub fn update_color_cube(image: &Image, cube: &ColorCube, instanced_mesh: &mut InstancedMesh)
    requires
        image.wf(),
        cube.wf(),
        mesh_matches_cube(*old(instanced_mesh), *cube),
    ensures
        final(instanced_mesh).0@ == updated_mesh(
            old(instanced_mesh).0@,
            image.data@,
            cube.resolution as int,
            cube.threshold,
            image.pixel_count(),
        ),
        mesh_matches_cube(*final(instanced_mesh), *cube),
{
    let ghost r_spec = cube.resolution as int;
    let ghost t = cube.threshold;
    let n = instanced_mesh.0.len();
    let mut counts: Vec<u64> = vec![0u64; n];
    proof {
        lemma_mul_le(image.width as int, image.height as int, 0xffff_ffff, 0xffff_ffff);
    }
    let pc: u64 = (image.width as u64) * (image.height as u64);
    let ghost pc_spec = image.pixel_count();
    let npix = image.data.len();
    let mut p: usize = 0;
    while p < npix
        invariant
            image.wf(),
            cube.wf(),
            r_spec == cube.resolution as int,
            n == cube_count(r_spec),
            n <= usize::MAX,
            npix == image.data@.len(),
            p <= npix,
            counts@.len() == n,
            forall|idx: int|
                0 <= idx < n ==> counts@[idx] == count_in_bucket(
                    image.data@.take(p as int),
                    r_spec,
                    idx,
                ),
            forall|idx: int| 0 <= idx < n ==> counts@[idx] <= p,
        decreases npix - p,
    {
        let c = image.data[p];
        let idx = bucket_index_of(cube.resolution, c);
        let cur = counts[idx];
        counts.set(idx, cur + 1);
        proof {
            let prefix = image.data@.take(p + 1);
            assert(prefix.drop_last() =~= image.data@.take(p as int));
            assert(prefix.last() == image.data@[p as int]);
        }
        p += 1;
    }
    proof {
        assert(image.data@.take(npix as int) =~= image.data@);
        assert(pc_spec == pc as int);
    }
    let t_num = cube.threshold.num as u128;
    let t_den = cube.threshold.den as u128;
    let mut i: usize = 0;
    while i < n
        invariant
            cube.wf(),
            r_spec == cube.resolution as int,
            t == cube.threshold,
            t_num == t.num as u128,
            t_den == t.den as u128,
            pc_spec == pc as int,
            n == cube_count(r_spec),
            i <= n,
            counts@.len() == n,
            forall|idx: int|
                0 <= idx < n ==> counts@[idx] == count_in_bucket(image.data@, r_spec, idx),
            instanced_mesh.0@.len() == n,
            forall|j: int|
                0 <= j < i ==> instanced_mesh.0@[j] == updated_mesh(
                    old(instanced_mesh).0@,
                    image.data@,
                    r_spec,
                    t,
                    pc_spec,
                )[j],
            forall|j: int| i <= j < n ==> instanced_mesh.0@[j] == old(instanced_mesh).0@[j],
            mesh_matches_cube(*old(instanced_mesh), *cube),
        decreases n - i,
    {
        let cnt = counts[i];
        let inst = instanced_mesh.0[i];
        let occ: (u128, u128) = if pc == 0 {
            (0, 1)
        } else {
            proof {
                lemma_mul_le(t_num as int, pc as int, 0xffff_ffff, 0xffff_ffff_ffff_ffff);
                lemma_mul_le(cnt as int, t_den as int, 0xffff_ffff_ffff_ffff, 0xffff_ffff);
            }
            let den = t_num * (pc as u128);
            let raw = (cnt as u128) * t_den;
            if raw >= den {
                (den, den)
            } else {
                (raw, den)
            }
        };
        instanced_mesh.0.set(
            i,
            InstanceData { xi: inst.xi, yi: inst.yi, zi: inst.zi, occ_num: occ.0, occ_den: occ.1 },
        );
        proof {
            lemma_scale_clamped(cnt as int, t, pc_spec);
        }
        i += 1;
    }
    proof {
        assert(instanced_mesh.0@ =~= updated_mesh(
            old(instanced_mesh).0@,
            image.data@,
            r_spec,
            t,
            pc_spec,
        ));
        assert forall|j: int| 0 <= j < n implies {
            let inst = #[trigger] instanced_mesh.0@[j];
            let init = initial_instance(r_spec, j);
            inst.xi == init.xi && inst.yi == init.yi && inst.zi == init.zi && inst.occ_wf()
        } by {
            let um = updated_mesh(old(instanced_mesh).0@, image.data@, r_spec, t, pc_spec);
            let cnt_j = count_in_bucket(image.data@, r_spec, j) as int;
            assert(instanced_mesh.0@[j] == um[j]);
            assert(um[j] == updated_instance(old(instanced_mesh).0@[j], cnt_j, t, pc_spec));
            lemma_scale_clamped(cnt_j, t, pc_spec);
            lemma_mul_le(t.num as int, pc_spec, 0xffff_ffff, 0xffff_ffff_ffff_ffff);
        }
    }
}

} // verus!
