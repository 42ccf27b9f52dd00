//! Building a project folder: the final folder name (optionally prefixed
//! with the date), the fixed subfolders in their creation order, the
//! template files copied into them, and the create-or-refuse decision for a
//! target that may already exist.

use vstd::prelude::*;
use crate::date::{Date, spec_date, date_bytes};
use crate::paths::{spec_join, join_path};
use crate::text::{trimmed, trim_bytes, append_bytes, concat_bytes};

verus! {

/// A project category decides the naming policy of the final folder name:
/// dated projects carry the local date as a prefix, undated ones use the
/// entered name alone. Both share the fixed subfolder and template sets.
#[derive(Clone, Copy, Debug, PartialEq, Eq, Structural)]
pub enum Category {
    Dated,
    Undated,
}

impl Category {
    /// Whether final folder names of this category carry the date prefix.
    pub open spec fn spec_date_prefixed(self) -> bool {
        self is Dated
    }

    /// Returns whether this category prefixes the date.
    pub fn date_prefixed(&self) -> (r: bool)
        ensures
            r == self.spec_date_prefixed(),
    {
        match self {
            Category::Dated => true,
            Category::Undated => false,
        }
    }
}

/// The subfolder name `A-roll`, as bytes.
pub open spec fn name_a_roll() -> Seq<u8> {
    seq![65u8, 45, 114, 111, 108, 108]
}

/// The subfolder name `B-roll`, as bytes.
pub open spec fn name_b_roll() -> Seq<u8> {
    seq![66u8, 45, 114, 111, 108, 108]
}

/// The subfolder name `Save`, as bytes.
pub open spec fn name_save() -> Seq<u8> {
    seq![83u8, 97, 118, 101]
}

/// The subfolder name `Photoshop`, as bytes.
pub open spec fn name_photoshop() -> Seq<u8> {
    seq![80u8, 104, 111, 116, 111, 115, 104, 111, 112]
}

/// The extension `.prproj` of the editing-project template, as bytes.
pub open spec fn ext_project() -> Seq<u8> {
    seq![46u8, 112, 114, 112, 114, 111, 106]
}

/// The extension `.psd` of the image-editor template, as bytes.
pub open spec fn ext_image() -> Seq<u8> {
    seq![46u8, 112, 115, 100]
}

/// The extension `.txt` of the notes template, as bytes.
pub open spec fn ext_notes() -> Seq<u8> {
    seq![46u8, 116, 120, 116]
}

/// The fixed subfolder names, in their creation order.
pub open spec fn spec_subfolder_names() -> Seq<Seq<u8>> {
    seq![name_a_roll(), name_b_roll(), name_save(), name_photoshop()]
}

fn vec_a_roll() -> (r: Vec<u8>)
    ensures
        r@ == name_a_roll(),
{
    let v: Vec<u8> = vec![65, 45, 114, 111, 108, 108];
    proof {
        assert(v@ =~= name_a_roll());
    }
    v
}

fn vec_b_roll() -> (r: Vec<u8>)
    ensures
        r@ == name_b_roll(),
{
    let v: Vec<u8> = vec![66, 45, 114, 111, 108, 108];
    proof {
        assert(v@ =~= name_b_roll());
    }
    v
}

fn vec_save() -> (r: Vec<u8>)
    ensures
        r@ == name_save(),
{
    let v: Vec<u8> = vec![83, 97, 118, 101];
    proof {
        assert(v@ =~= name_save());
    }
    v
}

fn vec_photoshop() -> (r: Vec<u8>)
    ensures
        r@ == name_photoshop(),
{
    let v: Vec<u8> = vec![80, 104, 111, 116, 111, 115, 104, 111, 112];
    proof {
        assert(v@ =~= name_photoshop());
    }
    v
}

/// The fixed subfolder names of a project, in creation order: exactly
/// `A-roll`, `B-roll`, `Save`, `Photoshop` and nothing else.
pub fn subfolder_names() -> (r: Vec<Vec<u8>>)
    ensures
        r@.len() == spec_subfolder_names().len(),
        forall|i: int| 0 <= i < r@.len() ==> r@[i]@ == spec_subfolder_names()[i],
{
    let mut v: Vec<Vec<u8>> = Vec::new();
    v.push(vec_a_roll());
    v.push(vec_b_roll());
    v.push(vec_save());
    v.push(vec_photoshop());
    v
}

/// The position of the first `_` in `s`, or `s.len()` when there is none.
pub open spec fn first_underscore(s: Seq<u8>) -> int
    decreases s.len(),
{
    if s.len() == 0 {
        0
    } else if s[0] == 95 {
        0
    } else {
        1 + first_underscore(s.drop_first())
    }
}

/// The project's display token within a final folder name: everything after
/// the first `_`, or the whole name when it has no `_`.
pub open spec fn spec_token(s: Seq<u8>) -> Seq<u8> {
    let i = first_underscore(s);
    if i < s.len() {
        s.skip(i + 1)
    } else {
        s
    }
}

proof fn lemma_first_underscore(s: Seq<u8>, i: int)
    requires
        0 <= i <= s.len(),
        forall|k: int| 0 <= k < i ==> s[k] != 95,
        i == s.len() || s[i] == 95,
    ensures
        first_underscore(s) == i,
    decreases i,
{
    if i == 0 {
    } else {
        lemma_first_underscore(s.drop_first(), i - 1);
    }
}

/// Extracts the display token from a final folder name.
pub fn project_token(name: &Vec<u8>) -> (r: Vec<u8>)
    ensures
        r@ == spec_token(name@),
{
    let n: usize = name.len();
    let mut i: usize = 0;
    while i < n && name[i] != 95
        invariant
            0 <= i <= n,
            n == name@.len(),
            forall|k: int| 0 <= k < i ==> name@[k] != 95,
        decreases n - i,
    {
        i += 1;
    }
    proof {
        lemma_first_underscore(name@, i as int);
    }
    let mut out: Vec<u8> = Vec::new();
    let start: usize = if i < n {
        i + 1
    } else {
        0
    };
    let mut k: usize = start;
    while k < n
        invariant
            start <= k <= n,
            n == name@.len(),
            out@ =~= name@.subrange(start as int, k as int),
        decreases n - k,
    {
        out.push(name[k]);
        k += 1;
    }
    proof {
        if (i as int) < name@.len() {
            assert(out@ =~= name@.skip(i as int + 1));
        } else {
            assert(out@ =~= name@);
        }
    }
    out
}

/// The stem of the notes file: the first three bytes of the token, or the
/// whole token when it is shorter.
pub open spec fn spec_notes_stem(token: Seq<u8>) -> Seq<u8> {
    if token.len() <= 3 {
        token
    } else {
        token.take(3)
    }
}

fn notes_stem(token: &Vec<u8>) -> (r: Vec<u8>)
    ensures
        r@ == spec_notes_stem(token@),
{
    let cut: usize = if token.len() <= 3 {
        token.len()
    } else {
        3
    };
    let mut out: Vec<u8> = Vec::new();
    let mut k: usize = 0;
    while k < cut
        invariant
            0 <= k <= cut <= token@.len(),
            out@ =~= token@.subrange(0, k as int),
        decreases cut - k,
    {
        out.push(token[k]);
        k += 1;
    }
    proof {
        assert(out@ =~= spec_notes_stem(token@));
    }
    out
}

/// The final folder name for `name` (already trimmed): dated categories
/// prefix the date joined by `_`, undated categories use the name alone.
pub open spec fn spec_final_name(cat: Category, d: Date, name: Seq<u8>) -> Seq<u8> {
    if cat.spec_date_prefixed() {
        spec_date(d) + seq![95u8] + name
    } else {
        name
    }
}

/// Builds the final folder name from the raw, user-entered project name:
/// the name is trimmed, and a dated category prefixes `d` as
/// `YYYY-MM-DD_`.
pub fn make_final_name(cat: Category, d: &Date, raw: &Vec<u8>) -> (r: Vec<u8>)
    requires
        d.wf(),
    ensures
        r@ == spec_final_name(cat, *d, trimmed(raw@)),
{
    let name = trim_bytes(raw);
    if cat.date_prefixed() {
        let mut v = date_bytes(d);
        v.push(95);
        append_bytes(&mut v, &name);
        proof {
            assert(v@ =~= spec_final_name(cat, *d, trimmed(raw@)));
        }
        v
    } else {
        name
    }
}

/// One template file to copy into the new project: which bundled template,
/// and the full destination path. The file's bytes are copied unchanged.
#[derive(Clone, Debug)]
pub struct TemplateCopy {
    pub kind: TemplateKind,
    pub dest: Vec<u8>,
}

/// The bundled templates.
#[derive(Clone, Copy, Debug, PartialEq, Eq, Structural)]
pub enum TemplateKind {
    /// The editing-project template; lands in `Save` as `<token>.prproj`.
    Project,
    /// The image-editor template; lands in `Photoshop` as `<token>.psd`.
    Image,
    /// The notes template; lands in `Save` named after the token's first
    /// three bytes, as `.txt`.
    Notes,
}

/// Everything the shell must create for one project, in order: the main
/// folder, then each subfolder, then each template copy.
#[derive(Clone, Debug)]
pub struct BuildRequest {
    pub target: Vec<u8>,
    pub subdirs: Vec<Vec<u8>>,
    pub copies: Vec<TemplateCopy>,
}

/// What a well-built request holds for a base directory and final name:
/// the target is `base/final_name`; the subfolders are exactly the four
/// fixed names under the target, in order; and the three template copies go
/// to their places under `Save` and `Photoshop`, named after the token.
pub open spec fn request_wf(req: BuildRequest, base: Seq<u8>, final_name: Seq<u8>) -> bool {
    let target = spec_join(base, final_name);
    let token = spec_token(final_name);
    &&& req.target@ == target
    &&& req.subdirs@.len() == 4
    &&& (forall|i: int|
        0 <= i < 4 ==> req.subdirs@[i]@ == spec_join(target, spec_subfolder_names()[i]))
    &&& req.copies@.len() == 3
    &&& req.copies@[0].kind is Project
    &&& req.copies@[0].dest@ == spec_join(spec_join(target, name_save()), token + ext_project())
    &&& req.copies@[1].kind is Image
    &&& req.copies@[1].dest@ == spec_join(spec_join(target, name_photoshop()), token + ext_image())
    &&& req.copies@[2].kind is Notes
    &&& req.copies@[2].dest@ == spec_join(
        spec_join(target, name_save()),
        spec_notes_stem(token) + ext_notes(),
    )
}

fn vec_ext_project() -> (r: Vec<u8>)
    ensures
        r@ == ext_project(),
{
    let v: Vec<u8> = vec![46, 112, 114, 112, 114, 111, 106];
    proof {
        assert(v@ =~= ext_project());
    }
    v
}

fn vec_ext_image() -> (r: Vec<u8>)
    ensures
        r@ == ext_image(),
{
    let v: Vec<u8> = vec![46, 112, 115, 100];
    proof {
        assert(v@ =~= ext_image());
    }
    v
}

fn vec_ext_notes() -> (r: Vec<u8>)
    ensures
        r@ == ext_notes(),
{
    let v: Vec<u8> = vec![46, 116, 120, 116];
    proof {
        assert(v@ =~= ext_notes());
    }
    v
}

/// Lays out the whole build of one project under `base`: target folder,
/// subfolders and template copies.
pub fn build(base: &Vec<u8>, final_name: &Vec<u8>) -> (r: BuildRequest)
    ensures
        request_wf(r, base@, final_name@),
{
    let target = join_path(base, final_name);
    let mut subdirs: Vec<Vec<u8>> = Vec::new();
    let names = subfolder_names();
    let mut i: usize = 0;
    while i < names.len()
        invariant
            0 <= i <= names@.len(),
            names@.len() == spec_subfolder_names().len(),
            forall|j: int| 0 <= j < names@.len() ==> names@[j]@ == spec_subfolder_names()[j],
            target@ == spec_join(base@, final_name@),
            subdirs@.len() == i,
            forall|j: int|
                0 <= j < i ==> subdirs@[j]@ == spec_join(target@, spec_subfolder_names()[j]),
        decreases names@.len() - i,
    {
        subdirs.push(join_path(&target, &names[i]));
        i += 1;
    }
    let token = project_token(final_name);
    let save_dir = join_path(&target, &vec_save());
    let photoshop_dir = join_path(&target, &vec_photoshop());
    let mut copies: Vec<TemplateCopy> = Vec::new();
    copies.push(
        TemplateCopy {
            kind: TemplateKind::Project,
            dest: join_path(&save_dir, &concat_bytes(&token, &vec_ext_project())),
        },
    );
    copies.push(
        TemplateCopy {
            kind: TemplateKind::Image,
            dest: join_path(&photoshop_dir, &concat_bytes(&token, &vec_ext_image())),
        },
    );
    copies.push(
        TemplateCopy {
            kind: TemplateKind::Notes,
            dest: join_path(&save_dir, &concat_bytes(&notes_stem(&token), &vec_ext_notes())),
        },
    );
    BuildRequest { target, subdirs, copies }
}

/// Why a project could not be created.
#[derive(Clone, Debug, PartialEq, Eq)]
pub enum CreateError {
    /// The target folder (or a file of that name) already exists; nothing
    /// was touched.
    AlreadyExists,
    /// A filesystem operation failed; the message is the underlying error's
    /// text. Folders created before the failure are left in place.
    Io(Vec<u8>),
}

/// The builder's create-or-refuse decision: a target that already exists is
/// refused before any work; otherwise the request goes ahead unchanged.
pub fn create_directory(req: BuildRequest, target_exists: bool) -> (r: Result<
    BuildRequest,
    CreateError,
>)
    ensures
        target_exists ==> r == Result::<BuildRequest, CreateError>::Err(CreateError::AlreadyExists),
        !target_exists ==> r == Result::<BuildRequest, CreateError>::Ok(req),
{
    if target_exists {
        Err(CreateError::AlreadyExists)
    } else {
        Ok(req)
    }
}

/// The paths a request creates: the main folder and its subfolders.
pub open spec fn created_paths(req: BuildRequest) -> Set<Seq<u8>> {
    req.subdirs@.map(|i: int, v: Vec<u8>| v@).to_set().insert(req.target@)
}

/// Directory creation against a model of the filesystem as the set of paths
/// that exist: a target already present is refused with `AlreadyExists` and
/// the filesystem is untouched; otherwise the target and its subfolders are
/// added.
pub open spec fn apply_create(fs: Set<Seq<u8>>, req: BuildRequest) -> Result<
    Set<Seq<u8>>,
    CreateError,
> {
    if fs.contains(req.target@) {
        Result::Err(CreateError::AlreadyExists)
    } else {
        Result::Ok(fs.union(created_paths(req)))
    }
}

/// Creating the same project twice is safe: when the target is new, the
/// first create succeeds, and repeating the same request fails with
/// `AlreadyExists`, leaving the first create's tree exactly as it was.
pub proof fn lemma_create_idempotent_safe(fs: Set<Seq<u8>>, req: BuildRequest)
    requires
        !fs.contains(req.target@),
    ensures
        apply_create(fs, req) is Ok,
        apply_create(apply_create(fs, req)->Ok_0, req) == Result::<
            Set<Seq<u8>>,
            CreateError,
        >::Err(CreateError::AlreadyExists),
{
    assert(apply_create(fs, req)->Ok_0.contains(req.target@));
}

} // verus!
