//! The grid-to-thread mapping as an explicit, checked configuration.
//!
//! Each stage is dispatched over a 3D grid of workgroups of a fixed 3D
//! workgroup size; the threads are mapped linearly onto the logical 2D
//! k-point grid. The configuration is valid for a grid exactly when the
//! total thread count equals the number of grid points, so no point is
//! missed and no thread is left without a point.

use vstd::prelude::*;

verus! {

/// Dispatch shape and logical grid extent of the pipeline.
#[derive(Debug, Clone, Copy, PartialEq, Eq, Structural)]
pub struct DispatchConfig {
    /// Workgroup count along x.
    pub workgroups_x: u32,
    /// Workgroup count along y.
    pub workgroups_y: u32,
    /// Workgroup count along z.
    pub workgroups_z: u32,
    /// Threads per workgroup along x.
    pub workgroup_size_x: u32,
    /// Threads per workgroup along y.
    pub workgroup_size_y: u32,
    /// Threads per workgroup along z.
    pub workgroup_size_z: u32,
    /// Logical k-point grid width.
    pub grid_width: u32,
    /// Logical k-point grid height.
    pub grid_height: u32,
}

impl DispatchConfig {
    /// Total number of threads launched by one dispatch.
    pub open spec fn spec_total_threads(&self) -> int {
        self.workgroups_x * self.workgroups_y * self.workgroups_z * self.workgroup_size_x
            * self.workgroup_size_y * self.workgroup_size_z
    }

    /// Number of points of the logical k-point grid.
    pub open spec fn spec_grid_points(&self) -> int {
        self.grid_width * self.grid_height
    }

    /// Arithmetic well-formedness: every dimension is positive and the
    /// thread total fits the machine's 64-bit counts.
    pub open spec fn wf(&self) -> bool {
        &&& 1 <= self.workgroups_x
        &&& 1 <= self.workgroups_y
        &&& 1 <= self.workgroups_z
        &&& 1 <= self.workgroup_size_x
        &&& 1 <= self.workgroup_size_y
        &&& 1 <= self.workgroup_size_z
        &&& 1 <= self.grid_width
        &&& 1 <= self.grid_height
        &&& self.spec_total_threads() <= u64::MAX
    }

    /// A valid mapping launches exactly one thread per grid point.
    pub open spec fn covers_grid(&self) -> bool {
        self.spec_total_threads() == self.spec_grid_points()
    }

    /// Total number of threads launched by one dispatch.
    pub fn total_threads(&self) -> (r: u64)
        requires
            self.wf(),
        ensures
            r == self.spec_total_threads(),
    {
        proof {
            let f1 = self.workgroups_x as int;
            let f2 = self.workgroups_y as int;
            let f3 = self.workgroups_z as int;
            let f4 = self.workgroup_size_x as int;
            let f5 = self.workgroup_size_y as int;
            let f6 = self.workgroup_size_z as int;
            assert(f1 * f2 <= f1 * f2 * f3 * f4 * f5 * f6) by (nonlinear_arith)
                requires
                    1 <= f1 && 1 <= f2 && 1 <= f3 && 1 <= f4 && 1 <= f5 && 1 <= f6,
            ;
            assert(f1 * f2 * f3 <= f1 * f2 * f3 * f4 * f5 * f6) by (nonlinear_arith)
                requires
                    1 <= f1 && 1 <= f2 && 1 <= f3 && 1 <= f4 && 1 <= f5 && 1 <= f6,
            ;
            assert(f1 * f2 * f3 * f4 <= f1 * f2 * f3 * f4 * f5 * f6) by (nonlinear_arith)
                requires
                    1 <= f1 && 1 <= f2 && 1 <= f3 && 1 <= f4 && 1 <= f5 && 1 <= f6,
            ;
            assert(f1 * f2 * f3 * f4 * f5 <= f1 * f2 * f3 * f4 * f5 * f6) by (nonlinear_arith)
                requires
                    1 <= f1 && 1 <= f2 && 1 <= f3 && 1 <= f4 && 1 <= f5 && 1 <= f6,
            ;
        }
        let t: u64 = (self.workgroups_x as u64) * (self.workgroups_y as u64)
            * (self.workgroups_z as u64) * (self.workgroup_size_x as u64)
            * (self.workgroup_size_y as u64) * (self.workgroup_size_z as u64);
        t
    }

    /// Number of points of the logical k-point grid.
    pub fn grid_points(&self) -> (r: u64)
        ensures
            r == self.spec_grid_points(),
    {
        proof {
            let a = self.grid_width as int;
            let b = self.grid_height as int;
            assert(a * b < 0x10000000000000000) by (nonlinear_arith)
                requires
                    0 <= a < 0x100000000 && 0 <= b < 0x100000000,
            ;
        }
        (self.grid_width as u64) * (self.grid_height as u64)
    }

    /// Check that the dispatch shape launches exactly one thread per grid
    /// point.
    pub fn check_covers_grid(&self) -> (r: bool)
        requires
            self.wf(),
        ensures
            r == self.covers_grid(),
    {
        self.total_threads() == self.grid_points()
    }

    /// The pipeline's standard shape: a 32 by 32 grid of 64 by 4 workgroups,
    /// 262144 threads in all, mapped linearly onto the 512 by 512 k-point
    /// grid.
    pub fn standard() -> (r: DispatchConfig)
        ensures
            r == (DispatchConfig {
                workgroups_x: 32,
                workgroups_y: 32,
                workgroups_z: 1,
                workgroup_size_x: 64,
                workgroup_size_y: 4,
                workgroup_size_z: 1,
                grid_width: 512,
                grid_height: 512,
            }),
            r.wf(),
            r.covers_grid(),
    {
        DispatchConfig {
            workgroups_x: 32,
            workgroups_y: 32,
            workgroups_z: 1,
            workgroup_size_x: 64,
            workgroup_size_y: 4,
            workgroup_size_z: 1,
            grid_width: 512,
            grid_height: 512,
        }
    }
}

} // verus!
