//! Start-up: from the command line to the configuration that the mirror
//! runs with.

use crate::path::spec_join;
use crate::path::spec_starts_with;
use crate::path::Component;
use crate::path::ComponentView;
use crate::path::SyncPath;
use crate::utils::path_views;
use crate::utils::spec_verbatim;
use crate::utils::Args;
use crate::utils::Utils;
use vstd::prelude::*;
use vstd::string::StringExecFns;

verus! {

/// The excluded path that an `exclude` option stands for: the option is
/// taken below the watched root unless it lies there already, and is held
/// in verbatim form.
pub open spec fn spec_excluded_entry(
    source_dir: Seq<ComponentView>,
    path: Seq<ComponentView>,
) -> Seq<ComponentView> {
    if spec_starts_with(path, source_dir) {
        spec_verbatim(path)
    } else {
        spec_verbatim(spec_join(source_dir, path))
    }
}

/// The directories that IDE mode leaves alone.
pub open spec fn spec_ide_excludes(source_dir: Seq<ComponentView>) -> Seq<Seq<ComponentView>> {
    seq![
        spec_verbatim(spec_join(source_dir, seq![ComponentView::Normal(".idea"@)])),
        spec_verbatim(spec_join(source_dir, seq![ComponentView::Normal(".git"@)])),
    ]
}

/// The excluded paths that a command line asks for: one for each
/// `exclude` option, in their order, and then those of IDE mode.
pub open spec fn spec_excludes(args: Args) -> Seq<Seq<ComponentView>> {
    let listed = Seq::new(
        args.exclude@.len(),
        |i: int| spec_excluded_entry(args.source_dir@, args.exclude@[i]@),
    );
    if args.ide_mode {
        listed + spec_ide_excludes(args.source_dir@)
    } else {
        listed
    }
}

/// Start-up.
pub struct Start;

impl Start {
    /// The configuration for a command line whose two directories exist and
    /// are in canonical form. IDE mode turns on the exclusion of temporary
    /// editor files.
    pub fn parse_args(args: Args) -> (utils: Utils)
        ensures
            utils.spec_excluded_paths() == spec_excludes(args),
            utils.spec_args() == (Args {
                exclude_temporary_editor_files: args.exclude_temporary_editor_files
                    || args.ide_mode,
                ..args
            }),
    {
        let mut args = args;
        let ghost given = args;
        let mut excluded_paths: Vec<SyncPath> = Vec::new();
        let mut i: usize = 0;
        while i < args.exclude.len()
            invariant
                args == given,
                i <= args.exclude.len(),
                excluded_paths@.len() == i,
                forall|j: int|
                    0 <= j < i ==> (#[trigger] excluded_paths@[j])@ == spec_excluded_entry(
                        args.source_dir@,
                        args.exclude@[j]@,
                    ),
            decreases args.exclude.len() - i,
        {
            let path = &args.exclude[i];
            let full_path = if !path.starts_with(&args.source_dir) {
                args.source_dir.join(path)
            } else {
                path.clone()
            };
            excluded_paths.push(Utils::path_to_verbatim(&full_path));
            i += 1;
        }
        assert(path_views(excluded_paths@) =~= Seq::new(
            args.exclude@.len(),
            |i: int| spec_excluded_entry(args.source_dir@, args.exclude@[i]@),
        ));
        if args.ide_mode {
            let ghost listed = path_views(excluded_paths@);
            let idea = Self::named(".idea");
            excluded_paths.push(Utils::path_to_verbatim(&args.source_dir.join(&idea)));
            let git = Self::named(".git");
            excluded_paths.push(Utils::path_to_verbatim(&args.source_dir.join(&git)));
            args.exclude_temporary_editor_files = true;
            assert(path_views(excluded_paths@) =~= listed + spec_ide_excludes(
                given.source_dir@,
            ));
        }
        let mut utils = Utils::new(args);
        utils.set_excluded_paths(excluded_paths);
        utils
    }

    /// The relative path that holds one name.
    fn named(name: &str) -> (res: SyncPath)
        ensures
            res@ == seq![ComponentView::Normal(name@)],
    {
        let mut res = SyncPath::new();
        res.push(Component::Normal(String::from_str(name)));
        assert(res@ =~= seq![ComponentView::Normal(name@)]);
        res
    }
}

} // verus!
