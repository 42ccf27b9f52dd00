//! The workflow around one project: search for the base directory, await
//! the scan's outcome, then create the project — deferring a requested
//! creation until a base directory is known. The shell performs the actions
//! this state machine hands out (spawning a scan, creating folders) and
//! reports their outcomes back.

use vstd::prelude::*;
use crate::builder::{
    BuildRequest,
    Category,
    CreateError,
    build,
    make_final_name,
    request_wf,
    spec_final_name,
};
use crate::date::{Date, today};
use crate::scan::ScanStatus;
use crate::text::{trimmed, trim_bytes, copy_bytes};

verus! {

/// The status line surfaced to the user; the shell renders it as text.
#[derive(Clone, Debug, PartialEq, Eq)]
pub enum Status {
    /// Nothing has happened yet.
    Blank,
    /// A scan for the base directory is under way.
    Searching,
    /// The search-target name was empty after trimming; nothing was done.
    EmptySearchName,
    /// The project name was empty after trimming; nothing was done.
    EmptyProjectName,
    /// The scan found the base directory.
    BaseFound,
    /// The scan finished without finding the base directory.
    BaseNotFound,
    /// The project folder was created.
    Created,
    /// Creating the project folder failed.
    CreateFailed(CreateError),
    /// The resolved base and displayed paths were cleared.
    ResetDone,
}

/// What the shell must do next on the workflow's behalf.
#[derive(Clone, Debug)]
pub enum ProjectAction {
    /// Run a background scan for a directory with this target name.
    StartScan(Vec<u8>),
    /// Create this project on disk and report the outcome.
    Build(BuildRequest),
}

/// Whether `req` is the build request for category `cat` and raw project
/// name `raw_name` against the base path `base` on date `d`.
pub open spec fn request_for(
    req: BuildRequest,
    cat: Category,
    raw_name: Seq<u8>,
    base: Seq<u8>,
    d: Date,
) -> bool {
    d.wf() && request_wf(req, base, spec_final_name(cat, d, trimmed(raw_name)))
}

/// Whether `req` is the build request for category `cat`, raw project name
/// `raw_name` and base path `base` on some well-formed date.
pub open spec fn request_ok(req: BuildRequest, cat: Category, raw_name: Seq<u8>, base: Seq<u8>) -> bool {
    exists|d: Date| request_for(req, cat, raw_name, base, d)
}

/// The application's state: the two entered names, the selected category,
/// the status line, the resolved base and created paths, and the two flags
/// that sequence scanning and deferred creation.
#[derive(Debug)]
pub struct MyApp {
    /// The name of the base folder to search for.
    pub search_folder_name: Vec<u8>,
    /// The entered project name.
    pub folder_name: Vec<u8>,
    /// The selected project category.
    pub category: Category,
    /// The last outcome, surfaced to the user.
    pub status: Status,
    /// The resolved base directory, once a scan has found it.
    pub project_path: Option<Vec<u8>>,
    /// The most recently created project folder.
    pub new_folder_path: Option<Vec<u8>>,
    /// Whether a scan is in flight.
    pub is_scanning: bool,
    /// Whether a requested creation is queued behind the scan in flight.
    pub pending_create: bool,
}

impl MyApp {
    /// The workflow invariant: a queued creation either waits on a scan in
    /// flight or already has a resolved base to act on.
    pub open spec fn wf(self) -> bool {
        self.pending_create ==> (self.is_scanning || self.project_path is Some)
    }

    /// Whether the search-target name is non-empty once trimmed.
    pub open spec fn search_name_ok(self) -> bool {
        trimmed(self.search_folder_name@).len() > 0
    }

    /// Whether the project name is non-empty once trimmed.
    pub open spec fn project_name_ok(self) -> bool {
        trimmed(self.folder_name@).len() > 0
    }

    /// Requests the base-directory search. An empty (post-trim) search name
    /// is rejected with a status message and no other change; otherwise a
    /// scan is marked in flight and the target name is handed to the shell
    /// to scan for in the background.
    pub fn start_scan(&mut self) -> (a: Option<Vec<u8>>)
        requires
            old(self).wf(),
        ensures
            final(self).wf(),
            old(self).search_name_ok() ==> {
                &&& *final(self) == (MyApp {
                    is_scanning: true,
                    status: Status::Searching,
                    ..*old(self)
                })
                &&& (a matches Some(t) && t@ == old(self).search_folder_name@)
            },
            !old(self).search_name_ok() ==> {
                &&& *final(self) == (MyApp { status: Status::EmptySearchName, ..*old(self) })
                &&& a is None
            },
    {
        let name = trim_bytes(&self.search_folder_name);
        if name.len() == 0 {
            self.status = Status::EmptySearchName;
            None
        } else {
            self.is_scanning = true;
            self.status = Status::Searching;
            Some(copy_bytes(&self.search_folder_name))
        }
    }

    /// Builds the creation request for the resolved base: takes the current
    /// local date, forms the final folder name by the category's naming
    /// policy, and lays out the folders and template copies.
    pub fn finish_create_project(&self) -> (r: BuildRequest)
        requires
            self.project_path is Some,
        ensures
            request_ok(r, self.category, self.folder_name@, self.project_path->Some_0@),
    {
        let d = today();
        let final_name = make_final_name(self.category, &d, &self.folder_name);
        let base = self.project_path.as_ref().unwrap();
        let req = build(base, &final_name);
        proof {
            assert(request_for(
                req,
                self.category,
                self.folder_name@,
                self.project_path->Some_0@,
                d,
            ));
            assert(request_ok(req, self.category, self.folder_name@, self.project_path->Some_0@));
        }
        req
    }

    /// The user asked to create the project. An empty (post-trim) project
    /// name is rejected. With a base resolved, the build request is handed
    /// out at once; with none, the request is queued behind a fresh scan —
    /// rejected likewise when the search name is empty.
    pub fn create_project(&mut self) -> (a: Option<ProjectAction>)
        requires
            old(self).wf(),
        ensures
            final(self).wf(),
            !old(self).project_name_ok() ==> {
                &&& *final(self) == (MyApp { status: Status::EmptyProjectName, ..*old(self) })
                &&& a is None
            },
            old(self).project_name_ok() && old(self).project_path is Some ==> {
                &&& *final(self) == *old(self)
                &&& (a matches Some(ProjectAction::Build(req)) && request_ok(
                    req,
                    old(self).category,
                    old(self).folder_name@,
                    old(self).project_path->Some_0@,
                ))
            },
            old(self).project_name_ok() && old(self).project_path is None && old(
                self,
            ).search_name_ok() ==> {
                &&& *final(self) == (MyApp {
                    pending_create: true,
                    is_scanning: true,
                    status: Status::Searching,
                    ..*old(self)
                })
                &&& (a matches Some(ProjectAction::StartScan(t)) && t@ == old(
                    self,
                ).search_folder_name@)
            },
            old(self).project_name_ok() && old(self).project_path is None && !old(
                self,
            ).search_name_ok() ==> {
                &&& *final(self) == (MyApp { status: Status::EmptySearchName, ..*old(self) })
                &&& a is None
            },
    {
        let name = trim_bytes(&self.folder_name);
        if name.len() == 0 {
            self.status = Status::EmptyProjectName;
            return None;
        }
        if self.project_path.is_none() {
            // queue the creation behind a scan for the base directory
            match self.start_scan() {
                Some(target) => {
                    self.pending_create = true;
                    Some(ProjectAction::StartScan(target))
                },
                None => None,
            }
        } else {
            let req = self.finish_create_project();
            Some(ProjectAction::Build(req))
        }
    }

    /// Applies one polled scan status. A found base is stored and, when a
    /// creation was queued, the build request is handed out at once, with
    /// no second user action; a scan that found nothing clears the queued
    /// creation. An idle or still-running scan changes nothing.
    pub fn handle_scan_result(&mut self, st: ScanStatus) -> (r: Option<BuildRequest>)
        requires
            old(self).wf(),
        ensures
            final(self).wf(),
            match st {
                ScanStatus::Found(p) => {
                    &&& *final(self) == (MyApp {
                        project_path: Some(p),
                        is_scanning: false,
                        status: Status::BaseFound,
                        ..*old(self)
                    })
                    &&& (if old(self).pending_create {
                        r matches Some(req) && request_ok(
                            req,
                            old(self).category,
                            old(self).folder_name@,
                            p@,
                        )
                    } else {
                        r is None
                    })
                },
                ScanStatus::NotFound => {
                    &&& *final(self) == (MyApp {
                        is_scanning: false,
                        pending_create: false,
                        status: Status::BaseNotFound,
                        ..*old(self)
                    })
                    &&& r is None
                },
                _ => *final(self) == *old(self) && r is None,
            },
    {
        match st {
            ScanStatus::Found(p) => {
                self.project_path = Some(p);
                self.is_scanning = false;
                self.status = Status::BaseFound;
                if self.pending_create {
                    Some(self.finish_create_project())
                } else {
                    None
                }
            },
            ScanStatus::NotFound => {
                self.is_scanning = false;
                self.pending_create = false;
                self.status = Status::BaseNotFound;
                None
            },
            _ => None,
        }
    }

    /// Records the shell's attempt at a build request: success stores and
    /// surfaces the created path, failure surfaces the error; either way
    /// the queued-creation flag is cleared, whatever the outcome was.
    pub fn record_build_result(&mut self, res: Result<Vec<u8>, CreateError>)
        requires
            old(self).wf(),
        ensures
            final(self).wf(),
            match res {
                Ok(p) => *final(self) == (MyApp {
                    status: Status::Created,
                    new_folder_path: Some(p),
                    pending_create: false,
                    ..*old(self)
                }),
                Err(e) => *final(self) == (MyApp {
                    status: Status::CreateFailed(e),
                    pending_create: false,
                    ..*old(self)
                }),
            },
    {
        match res {
            Ok(p) => {
                self.status = Status::Created;
                self.new_folder_path = Some(p);
                self.pending_create = false;
            },
            Err(e) => {
                self.status = Status::CreateFailed(e);
                self.pending_create = false;
            },
        }
    }

    /// Returns the workflow to the base-search step: the resolved base, the
    /// queued creation and the displayed path are cleared; the entered
    /// names and category are kept.
    pub fn reset(&mut self)
        ensures
            final(self).wf(),
            *final(self) == (MyApp {
                project_path: None,
                new_folder_path: None,
                pending_create: false,
                is_scanning: false,
                status: Status::ResetDone,
                ..*old(self)
            }),
    {
        self.project_path = None;
        self.new_folder_path = None;
        self.pending_create = false;
        self.is_scanning = false;
        self.status = Status::ResetDone;
    }

    /// The confirm shortcut: with no base resolved it starts the search,
    /// otherwise it asks to create the project.
    pub fn confirm(&mut self) -> (a: Option<ProjectAction>)
        requires
            old(self).wf(),
        ensures
            final(self).wf(),
            old(self).project_path is None && old(self).search_name_ok() ==> {
                &&& *final(self) == (MyApp {
                    is_scanning: true,
                    status: Status::Searching,
                    ..*old(self)
                })
                &&& (a matches Some(ProjectAction::StartScan(t)) && t@ == old(
                    self,
                ).search_folder_name@)
            },
            old(self).project_path is None && !old(self).search_name_ok() ==> {
                &&& *final(self) == (MyApp { status: Status::EmptySearchName, ..*old(self) })
                &&& a is None
            },
            old(self).project_path is Some && !old(self).project_name_ok() ==> {
                &&& *final(self) == (MyApp { status: Status::EmptyProjectName, ..*old(self) })
                &&& a is None
            },
            old(self).project_path is Some && old(self).project_name_ok() ==> {
                &&& *final(self) == *old(self)
                &&& (a matches Some(ProjectAction::Build(req)) && request_ok(
                    req,
                    old(self).category,
                    old(self).folder_name@,
                    old(self).project_path->Some_0@,
                ))
            },
    {
        if self.project_path.is_none() {
            match self.start_scan() {
                Some(target) => Some(ProjectAction::StartScan(target)),
                None => None,
            }
        } else {
            self.create_project()
        }
    }
}

impl Default for MyApp {
    /// A fresh workflow: empty names, the dated category, a blank status,
    /// no resolved base, nothing created, no scan and nothing queued.
    fn default() -> (a: MyApp)
        ensures
            a.search_folder_name@ == Seq::<u8>::empty(),
            a.folder_name@ == Seq::<u8>::empty(),
            a.category is Dated,
            a.status is Blank,
            a.project_path is None,
            a.new_folder_path is None,
            !a.is_scanning,
            !a.pending_create,
            a.wf(),
    {
        MyApp {
            search_folder_name: Vec::new(),
            folder_name: Vec::new(),
            category: Category::Dated,
            status: Status::Blank,
            project_path: None,
            new_folder_path: None,
            is_scanning: false,
            pending_create: false,
        }
    }
}

} // verus!
