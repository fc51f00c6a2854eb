//! Planning the `list` operation: one command that prints an archive's
//! entries, for the formats that can list them.

use vstd::prelude::*;
use vstd::string::*;
use crate::args::{ArcType, ListData, ListModel};
use crate::library::{
    ArcError, Cmd, CmdModel, Plan, PlanModel, cmd_model, plan_result_model, arg_lit, arg_own,
};
use crate::extract::resolved_extract_type;
use crate::extract::resolve_extract_type;

verus! {

/// The one command that lists a container archive's entries.
pub open spec fn list_step_spec(at: ArcType, input: Seq<char>, cd: Seq<char>) -> CmdModel {
    match at {
        ArcType::Zip => cmd_model("zipinfo"@, seq!["-1"@, input], cd),
        ArcType::Tar | ArcType::Lha => cmd_model("bsdtar"@, seq!["-t"@, "-f"@, input], cd),
        ArcType::SevenZ => cmd_model("7z"@, seq!["l"@, "-ba"@, input], cd),
        ArcType::Rar => cmd_model("rar"@, seq!["lb"@, input], cd),
        ArcType::Cpio => cmd_model("cpio"@, seq!["-t"@, "-I"@, input], cd),
        ArcType::Aar => cmd_model("aa"@, seq!["list"@, "-i"@, input], cd),
        ArcType::Wim => cmd_model("wimdir"@, seq![input], cd),
        ArcType::Zpaq => cmd_model("zpaq"@, seq!["l"@, input], cd),
        _ => cmd_model(""@, seq![], cd),
    }
}

/// The formats whose contents can be listed.
pub open spec fn can_list(at: ArcType) -> bool {
    match at {
        ArcType::Zip | ArcType::Tar | ArcType::Lha | ArcType::SevenZ | ArcType::Rar
            | ArcType::Cpio | ArcType::Aar | ArcType::Wim | ArcType::Zpaq => true,
        _ => false,
    }
}

/// The whole listing decision: the format (the explicit override, else the
/// suffix table, else Tar), the input check, then the format's listing
/// command; disk images and the pure-compression codecs cannot be listed.
pub open spec fn list_spec(d: ListModel, input_is_file: bool, cd: Seq<char>) -> Result<
    PlanModel,
    ArcError,
> {
    let at = resolved_extract_type(d.input, d.arc_type);
    if !input_is_file {
        Err(ArcError::InputNotFound)
    } else if can_list(at) {
        Ok(
            PlanModel {
                make_dirs: seq![],
                stage: None,
                steps: seq![list_step_spec(at, d.input, cd)],
                archive: Seq::empty(),
                use_temp_position: false,
            },
        )
    } else {
        Err(ArcError::UnsupportedOperation)
    }
}

/// Plans the whole list operation, as [`list_spec`] describes.
/// `input_is_file` is the probed fact about the archive path.
pub fn list(d: &ListData, input_is_file: bool, cd: &String) -> (r: Result<Plan, ArcError>)
    ensures
        plan_result_model(r) == list_spec(d@, input_is_file, cd@),
{
    let at = resolve_extract_type(&d.input, &d.arc_type);
    if !input_is_file {
        return Err(ArcError::InputNotFound);
    }
    let mut a: Vec<String> = Vec::new();
    let prog: &str = match at {
        ArcType::Zip => {
            arg_lit(&mut a, "-1");
            arg_own(&mut a, d.input.clone());
            "zipinfo"
        },
        ArcType::Tar | ArcType::Lha => {
            arg_lit(&mut a, "-t");
            arg_lit(&mut a, "-f");
            arg_own(&mut a, d.input.clone());
            "bsdtar"
        },
        ArcType::SevenZ => {
            arg_lit(&mut a, "l");
            arg_lit(&mut a, "-ba");
            arg_own(&mut a, d.input.clone());
            "7z"
        },
        ArcType::Rar => {
            arg_lit(&mut a, "lb");
            arg_own(&mut a, d.input.clone());
            "rar"
        },
        ArcType::Cpio => {
            arg_lit(&mut a, "-t");
            arg_lit(&mut a, "-I");
            arg_own(&mut a, d.input.clone());
            "cpio"
        },
        ArcType::Aar => {
            arg_lit(&mut a, "list");
            arg_lit(&mut a, "-i");
            arg_own(&mut a, d.input.clone());
            "aa"
        },
        ArcType::Wim => {
            arg_own(&mut a, d.input.clone());
            "wimdir"
        },
        ArcType::Zpaq => {
            arg_lit(&mut a, "l");
            arg_own(&mut a, d.input.clone());
            "zpaq"
        },
        _ => {
            return Err(ArcError::UnsupportedOperation);
        },
    };
    let c = Cmd::new_cwd(prog, a, cd);
    let mut steps: Vec<Cmd> = Vec::new();
    steps.push(c);
    proof {
        assert(c@ =~~= list_step_spec(at, d@.input, cd@));
    }
    let p = Plan {
        make_dirs: Vec::new(),
        stage: None,
        steps,
        archive: String::new(),
        use_temp_position: false,
    };
    proof {
        assert(p@ =~~= list_spec(d@, input_is_file, cd@).unwrap());
    }
    Ok(p)
}

} // verus!
