//! Shader programs: the staged compile/link build and the uniform-location
//! cache.
//!
//! Compiling and linking happen on the GPU, so the build is a small state
//! machine: the caller asks which stage is next, runs it against the driver,
//! and feeds the outcome back through [`ShaderBuild::advance`]. A failed
//! stage ends the build with a [`CompileError`] naming that stage and
//! carrying the (truncated) diagnostic; the link step is reachable only after
//! both compile stages have succeeded.
//!
//! A built [`Shader`] resolves each uniform name to an integer location at
//! most once: upload requests are answered from the cache, and only
//! [`Shader::store_location`] — called when an upload reports
//! [`UniformAction::NeedLocation`] — extends it.

use vstd::prelude::*;
use crate::commands::GpuCmd;
use crate::vecmath::Vec3Bits;

verus! {

/// The longest diagnostic, in bytes, that a build failure carries.
pub const DIAGNOSTIC_CAP: usize = 1024;

/// One stage of building a shader program.
#[derive(Clone, Copy, Debug, PartialEq, Eq, Structural)]
pub enum ShaderStage {
    Vertex,
    Fragment,
    Link,
}

/// What the driver reported for one build stage: a status flag and the
/// compiler's diagnostic text (raw bytes; empty on success).
#[derive(Debug)]
pub struct StageResult {
    pub success: bool,
    pub log: Vec<u8>,
}

/// A failed shader build: the stage that failed and its diagnostic,
/// truncated to [`DIAGNOSTIC_CAP`] bytes.
#[derive(Debug)]
pub struct CompileError {
    pub stage: ShaderStage,
    pub diagnostic: Vec<u8>,
}

/// `log` cut off at [`DIAGNOSTIC_CAP`] bytes.
pub open spec fn truncated_log(log: Seq<u8>) -> Seq<u8> {
    if log.len() <= DIAGNOSTIC_CAP {
        log
    } else {
        log.subrange(0, DIAGNOSTIC_CAP as int)
    }
}

/// Cut a diagnostic off at [`DIAGNOSTIC_CAP`] bytes.
pub fn truncate_diagnostic(log: Vec<u8>) -> (r: Vec<u8>)
    ensures
        r@ == truncated_log(log@),
{
    let mut r = log;
    if r.len() > DIAGNOSTIC_CAP {
        r.truncate(DIAGNOSTIC_CAP);
    }
    r
}

/// A linked shader program: its GPU handle and the uniform locations
/// resolved so far. Once a name is resolved its location is stable for the
/// program's lifetime, so the cache is only ever extended.
pub struct Shader {
    id: u32,
    uniform_names: Vec<String>,
    uniform_locations: Vec<i32>,
}

/// An in-progress shader build, waiting for the driver's report on `stage`.
#[derive(Clone, Copy, Debug, PartialEq, Eq, Structural)]
pub struct ShaderBuild {
    pub program: u32,
    pub stage: ShaderStage,
}

/// The state of a build after one stage's outcome was applied.
pub enum BuildOutcome {
    /// More stages remain: run the one the contained build now waits on.
    Pending(ShaderBuild),
    /// All stages succeeded; the program is ready for use.
    Built(Shader),
    /// A stage failed; the build is over.
    Failed(CompileError),
}

/// The answer to a uniform upload request.
pub enum UniformAction {
    /// The location was cached: replay this command against the context.
    Upload(GpuCmd),
    /// The name is not resolved yet: query the driver for its location once,
    /// record it with [`Shader::store_location`], and ask again.
    NeedLocation,
}

/// The map from uniform names to locations that an association of `names`
/// and `locations` represents.
spec fn cache_of(names: Seq<Seq<char>>, locations: Seq<i32>) -> Map<Seq<char>, i32>
    decreases names.len(),
{
    if names.len() == 0 {
        Map::empty()
    } else {
        cache_of(names.drop_last(), locations.drop_last()).insert(names.last(), locations.last())
    }
}

impl Shader {
    /// The association lists agree in length and no uniform name repeats.
    pub closed spec fn wf(self) -> bool {
        &&& self.uniform_names@.len() == self.uniform_locations@.len()
        &&& forall|i: int, j: int|
            0 <= i < j < self.uniform_names@.len()
                ==> self.uniform_names@[i]@ != self.uniform_names@[j]@
    }

    /// The GPU handle of the linked program.
    pub closed spec fn program_id(self) -> u32 {
        self.id
    }

    /// The uniform locations resolved so far, as a map from name to location.
    pub closed spec fn cache(self) -> Map<Seq<char>, i32> {
        cache_of(self.uniform_names.deep_view(), self.uniform_locations@)
    }

    /// Begin building a shader program that was created under the given GPU
    /// handle. The vertex stage is compiled first.
    pub fn build(program: u32) -> (b: ShaderBuild)
        ensures
            b == (ShaderBuild { program, stage: ShaderStage::Vertex }),
    {
        ShaderBuild { program, stage: ShaderStage::Vertex }
    }

    /// Release the program's GPU handle. Consumes the shader, so no later
    /// upload can target the released program.
    pub fn destroy(self) -> (c: GpuCmd)
        ensures
            c == (GpuCmd::DeleteProgram { program: self.program_id() }),
    {
        GpuCmd::DeleteProgram { program: self.id }
    }

    /// Make this program the active one for subsequent draw calls.
    pub fn use_shader(&self) -> (c: GpuCmd)
        ensures
            c == (GpuCmd::UseProgram { program: self.program_id() }),
    {
        GpuCmd::UseProgram { program: self.id }
    }

    /// The index of `name` in the association list, if present.
    fn find_name(&self, name: &String) -> (r: Option<usize>)
        ensures
            match r {
                Some(i) => 0 <= i < self.uniform_names@.len() && self.uniform_names@[i as int]@ == name@,
                None => forall|i: int|
                    0 <= i < self.uniform_names@.len() ==> self.uniform_names@[i]@ != name@,
            },
    {
        let n = self.uniform_names.len();
        let mut i: usize = 0;
        while i < n
            invariant
                n == self.uniform_names@.len(),
                0 <= i <= n,
                forall|j: int| 0 <= j < i ==> self.uniform_names@[j]@ != name@,
            decreases n - i,
        {
            if self.uniform_names[i].eq(name) {
                return Some(i);
            }
            i = i + 1;
        }
        None
    }

    /// The location cached for `name`, if that name was ever resolved.
    pub fn cached_location(&self, name: &str) -> (r: Option<i32>)
        requires
            self.wf(),
        ensures
            r == if self.cache().contains_key(name@) {
                Some(self.cache()[name@])
            } else {
                None::<i32>
            },
    {
        let key: String = name.to_owned();
        proof {
            lemma_cache_of_keys(self.uniform_names.deep_view(), self.uniform_locations@, name@);
        }
        match self.find_name(&key) {
            Some(i) => {
                proof {
                    lemma_cache_of_at(
                        self.uniform_names.deep_view(),
                        self.uniform_locations@,
                        i as int,
                    );
                }
                Some(self.uniform_locations[i])
            },
            None => None,
        }
    }

    /// Record the location the driver resolved for `name`. Locations are
    /// stable for the program's lifetime, so recording the same name again
    /// simply overwrites its entry.
    pub fn store_location(&mut self, name: &str, location: i32)
        requires
            old(self).wf(),
        ensures
            final(self).wf(),
            final(self).program_id() == old(self).program_id(),
            final(self).cache() == old(self).cache().insert(name@, location),
    {
        let key: String = name.to_owned();
        match self.find_name(&key) {
            Some(i) => {
                proof {
                    lemma_cache_of_update(
                        self.uniform_names.deep_view(),
                        self.uniform_locations@,
                        i as int,
                        location,
                    );
                }
                self.uniform_locations[i] = location;
                proof {
                    assert(self.uniform_names.deep_view() =~= old(self).uniform_names.deep_view());
                }
            },
            None => {
                self.uniform_names.push(key);
                self.uniform_locations.push(location);
                proof {
                    assert(self.uniform_names.deep_view() =~= old(self).uniform_names.deep_view().push(name@));
                    assert(self.uniform_names.deep_view().drop_last() =~= old(self).uniform_names.deep_view());
                    assert(self.uniform_locations@.drop_last() =~= old(self).uniform_locations@);
                }
            },
        }
    }

    /// Resolve `name` against the cache and, when it is known, produce the
    /// upload command for a column-major 4x4 matrix. The caller replays the
    /// command; a location of `-1` (name not active in the program) makes the
    /// underlying upload a silent no-op, which is deliberately not an error.
    pub fn mat4_uniform(&self, mat: &[u32; 16], name: &str) -> (a: UniformAction)
        requires
            self.wf(),
        ensures
            self.cache().contains_key(name@) ==> a == UniformAction::Upload(
                GpuCmd::UploadMat4 { location: self.cache()[name@], column_major: *mat },
            ),
            !self.cache().contains_key(name@) ==> a == (UniformAction::NeedLocation),
    {
        match self.cached_location(name) {
            Some(location) => UniformAction::Upload(
                GpuCmd::UploadMat4 { location, column_major: *mat },
            ),
            None => UniformAction::NeedLocation,
        }
    }

    /// Resolve `name` against the cache and, when it is known, produce the
    /// upload command for a 3-component vector, as [`Self::mat4_uniform`]
    /// does for matrices.
    pub fn vec3_uniform(&self, value: Vec3Bits, name: &str) -> (a: UniformAction)
        requires
            self.wf(),
        ensures
            self.cache().contains_key(name@) ==> a == UniformAction::Upload(
                GpuCmd::UploadVec3 { location: self.cache()[name@], value },
            ),
            !self.cache().contains_key(name@) ==> a == (UniformAction::NeedLocation),
    {
        match self.cached_location(name) {
            Some(location) => UniformAction::Upload(GpuCmd::UploadVec3 { location, value }),
            None => UniformAction::NeedLocation,
        }
    }
}

impl ShaderBuild {
    /// Whether applying `result` to the build waiting on `self.stage` gives
    /// outcome `o`: success advances vertex to fragment, fragment to link,
    /// and link to the finished program with an empty uniform cache; any
    /// failure ends the build with the failing stage's (truncated)
    /// diagnostic.
    pub open spec fn advance_rel(self, result: StageResult, o: BuildOutcome) -> bool {
        if result.success {
            match self.stage {
                ShaderStage::Vertex => o == BuildOutcome::Pending(
                    ShaderBuild { program: self.program, stage: ShaderStage::Fragment },
                ),
                ShaderStage::Fragment => o == BuildOutcome::Pending(
                    ShaderBuild { program: self.program, stage: ShaderStage::Link },
                ),
                ShaderStage::Link => {
                    &&& o matches BuildOutcome::Built(s)
                    &&& s.wf()
                    &&& s.program_id() == self.program
                    &&& s.cache() == Map::<Seq<char>, i32>::empty()
                },
            }
        } else {
            &&& o matches BuildOutcome::Failed(e)
            &&& e.stage == self.stage
            &&& e.diagnostic@ == truncated_log(result.log@)
        }
    }

    /// Apply the driver's report for the stage this build was waiting on.
    pub fn advance(self, result: StageResult) -> (o: BuildOutcome)
        ensures
            self.advance_rel(result, o),
    {
        if result.success {
            match self.stage {
                ShaderStage::Vertex => BuildOutcome::Pending(
                    ShaderBuild { program: self.program, stage: ShaderStage::Fragment },
                ),
                ShaderStage::Fragment => BuildOutcome::Pending(
                    ShaderBuild { program: self.program, stage: ShaderStage::Link },
                ),
                ShaderStage::Link => {
                    let shader = Shader {
                        id: self.program,
                        uniform_names: Vec::new(),
                        uniform_locations: Vec::new(),
                    };
                    proof {
                        assert(shader.uniform_names.deep_view() =~= Seq::<Seq<char>>::empty());
                    }
                    BuildOutcome::Built(shader)
                },
            }
        } else {
            BuildOutcome::Failed(
                CompileError { stage: self.stage, diagnostic: truncate_diagnostic(result.log) },
            )
        }
    }
}

/// Law: a failed stage ends the build at exactly that stage. The outcome is
/// neither a further pending stage nor a built program, so in particular a
/// vertex- or fragment-compile failure never reaches the link step.
pub proof fn lemma_failure_stops_build(b: ShaderBuild, result: StageResult, o: BuildOutcome)
    requires
        b.advance_rel(result, o),
        !result.success,
    ensures
        o matches BuildOutcome::Failed(e) && e.stage == b.stage && e.diagnostic@ == truncated_log(
            result.log@,
        ),
        !(o is Pending),
        !(o is Built),
{
}

/// Law: the link step is attempted only after both compiles succeeded. A
/// build comes to wait on the link stage only through a successful fragment
/// stage, and a build waits on the fragment stage only after a successful
/// vertex stage.
pub proof fn lemma_link_needs_both_compiles(b: ShaderBuild, result: StageResult, o: BuildOutcome)
    requires
        b.advance_rel(result, o),
    ensures
        (o matches BuildOutcome::Pending(n) && n.stage is Link) ==> (result.success
            && b.stage is Fragment),
        (o matches BuildOutcome::Pending(n) && n.stage is Fragment) ==> (result.success
            && b.stage is Vertex),
        (o is Built) ==> (result.success && b.stage is Link),
{
}

/// Law: a uniform location is resolved at most once per name. Recording a
/// resolved location (the only operation that changes the cache) makes the
/// cache answer for that name, keeps every other cached name cached, and so
/// guarantees that a later upload with the same name is served from the cache
/// instead of asking the driver again.
pub proof fn lemma_location_resolved_once(
    pre: Map<Seq<char>, i32>,
    post: Map<Seq<char>, i32>,
    name: Seq<char>,
    location: i32,
)
    requires
        post == pre.insert(name, location),
    ensures
        post.contains_key(name),
        post[name] == location,
        forall|other: Seq<char>| pre.contains_key(other) ==> post.contains_key(other),
        forall|other: Seq<char>|
            pre.contains_key(other) && other != name ==> post[other] == pre[other],
{
}

/// `cache_of` holds a key exactly when some entry's name is that key.
proof fn lemma_cache_of_keys(names: Seq<Seq<char>>, locations: Seq<i32>, key: Seq<char>)
    requires
        names.len() == locations.len(),
    ensures
        cache_of(names, locations).contains_key(key) <==> exists|i: int|
            0 <= i < names.len() && names[i] == key,
    decreases names.len(),
{
    if names.len() > 0 {
        lemma_cache_of_keys(names.drop_last(), locations.drop_last(), key);
        if names.last() == key {
            assert(names[names.len() - 1] == key);
        } else if cache_of(names, locations).contains_key(key) {
            let i = choose|i: int| 0 <= i < names.drop_last().len() && names.drop_last()[i] == key;
            assert(names[i] == key);
        } else if exists|i: int| 0 <= i < names.len() && names[i] == key {
            let i = choose|i: int| 0 <= i < names.len() && names[i] == key;
            assert(names.drop_last()[i] == key);
        }
    }
}

/// With pairwise-distinct names, `cache_of` maps entry `i`'s name to entry
/// `i`'s location.
proof fn lemma_cache_of_at(names: Seq<Seq<char>>, locations: Seq<i32>, i: int)
    requires
        names.len() == locations.len(),
        0 <= i < names.len(),
        forall|p: int, q: int| 0 <= p < q < names.len() ==> names[p] != names[q],
    ensures
        cache_of(names, locations).contains_key(names[i]),
        cache_of(names, locations)[names[i]] == locations[i],
    decreases names.len(),
{
    if i == names.len() - 1 {
    } else {
        lemma_cache_of_at(names.drop_last(), locations.drop_last(), i);
        assert(names[i] != names.last());
    }
}

/// Overwriting entry `i`'s location changes `cache_of` the same way as
/// inserting entry `i`'s name with the new location.
proof fn lemma_cache_of_update(names: Seq<Seq<char>>, locations: Seq<i32>, i: int, location: i32)
    requires
        names.len() == locations.len(),
        0 <= i < names.len(),
        forall|p: int, q: int| 0 <= p < q < names.len() ==> names[p] != names[q],
    ensures
        cache_of(names, locations.update(i, location)) == cache_of(names, locations).insert(
            names[i],
            location,
        ),
    decreases names.len(),
{
    let updated = locations.update(i, location);
    if i == names.len() - 1 {
        assert(updated.drop_last() =~= locations.drop_last());
        assert(updated.last() == location);
        assert(cache_of(names, updated) =~= cache_of(names, locations).insert(names[i], location));
    } else {
        lemma_cache_of_update(names.drop_last(), locations.drop_last(), i, location);
        assert(updated.drop_last() =~= locations.drop_last().update(i, location));
        assert(names.drop_last()[i] == names[i]);
        assert(names[i] != names.last());
        assert(cache_of(names, updated) =~= cache_of(names, locations).insert(names[i], location));
    }
}

} // verus!
