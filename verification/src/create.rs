//! Planning the `create` operation: from the request and the probed shape of
//! its inputs to the ordered command steps that build the archive.

use vstd::prelude::*;
use vstd::string::*;
use crate::args::{ArcType, CreateData, CreateModel, CreateType, PathKind, shape_of, classify_inputs, is_codec};
use crate::library::{
    ArcError, Cmd, CmdModel, Plan, PlanModel, cmd_model, steps_model, plan_result_model,
    arg_lit, arg_own, join_path, join_path_spec, split_path, split_path_spec,
    lemma_deep_view_push, lemma_steps_model_push,
    dec_u8, pre_num, u8_string, compress_ext, compress_ext_spec,
    guess_type, guess_type_spec, rate_map, rate_conversion,
};

verus! {

/// The format a create request resolves to: the explicit override, else the
/// suffix table on the output name, else Zip.
pub open spec fn resolved_create_type(d: CreateModel) -> ArcType {
    match d.arc_type {
        Some(t) => t,
        None => match guess_type_spec(d.output, true) {
            Some(t) => t,
            None => ArcType::Zip,
        },
    }
}

/// `f` alone, unless `v` suppresses it.
pub open spec fn flag_unless(v: bool, f: Seq<char>) -> Seq<Seq<char>> {
    if v {
        seq![]
    } else {
        seq![f]
    }
}

/// `f` alone when `v` asks for it.
pub open spec fn flag_if(v: bool, f: Seq<char>) -> Seq<Seq<char>> {
    if v {
        seq![f]
    } else {
        seq![]
    }
}

/// A dash followed by the decimal rate.
pub open spec fn dash(r: u8) -> Seq<char> {
    "-"@ + dec_u8(r)
}

/// The (working directory, entry name) pair of each input: with `keep_path`
/// the process current directory and the path as given, so the path becomes
/// the entry's name inside the archive; otherwise the input's parent
/// directory and its base name, so every entry sits at the archive's root.
pub open spec fn get_pi_spec(input: Seq<Seq<char>>, keep_path: bool, cwd: Seq<char>) -> Result<
    Seq<(Seq<char>, Seq<char>)>,
    ArcError,
> {
    if keep_path {
        Ok(Seq::new(input.len(), |i: int| (cwd, input[i])))
    } else if pi_split_ok(input, cwd) {
        Ok(Seq::new(input.len(), |i: int| split_path_spec(input[i], cwd).unwrap()))
    } else {
        Err(ArcError::InputNotFound)
    }
}

/// Every input path has a parent/base split.
pub open spec fn pi_split_ok(input: Seq<Seq<char>>, cwd: Seq<char>) -> bool
    decreases input.len(),
{
    if input.len() == 0 {
        true
    } else {
        pi_split_ok(input.drop_last(), cwd) && split_path_spec(input.last(), cwd) is Some
    }
}

/// A path without a split anywhere in the inputs refutes the whole split.
proof fn lemma_pi_split_bad(input: Seq<Seq<char>>, cwd: Seq<char>, i: int)
    requires
        0 <= i < input.len(),
        split_path_spec(input[i], cwd) is None,
    ensures
        !pi_split_ok(input, cwd),
    decreases input.len(),
{
    if i == input.len() - 1 {
    } else {
        assert(input.drop_last()[i] == input[i]);
        lemma_pi_split_bad(input.drop_last(), cwd, i);
    }
}

/// The model of a `Result` carrying working-directory/name pairs.
pub open spec fn pi_result_model(r: Result<Vec<(String, String)>, ArcError>) -> Result<
    Seq<(Seq<char>, Seq<char>)>,
    ArcError,
> {
    match r {
        Ok(v) => Ok(v.deep_view()),
        Err(e) => Err(e),
    }
}

/// Turns each input path into the (working directory, entry name) pair its
/// archiving step runs with, as [`get_pi_spec`] describes.  An input whose
/// base name cannot be split off is refused.
fn get_pi(input: &Vec<String>, keep_path: bool, cwd: &String) -> (r: Result<
    Vec<(String, String)>,
    ArcError,
>)
    ensures
        pi_result_model(r) == get_pi_spec(input.deep_view(), keep_path, cwd@),
{
    let ghost inp = input.deep_view();
    let mut out: Vec<(String, String)> = Vec::new();
    if keep_path {
        let mut i: usize = 0;
        while i < input.len()
            invariant
                i <= input.len(),
                inp == input.deep_view(),
                out.deep_view() == Seq::new(i as nat, |j: int| (cwd@, inp[j])),
            decreases input.len() - i,
        {
            let pair = (cwd.clone(), input[i].clone());
            proof {
                assert(pair.deep_view() == (cwd@, inp[i as int]));
            }
            let ghost prev = out;
            out.push(pair);
            proof {
                lemma_deep_view_push(out, prev, pair);
                assert(out.deep_view() =~= Seq::new((i + 1) as nat, |j: int| (cwd@, inp[j])));
            }
            i = i + 1;
        }
        proof {
            assert(out.deep_view() =~= Seq::new(inp.len(), |j: int| (cwd@, inp[j])));
        }
        Ok(out)
    } else {
        let mut i: usize = 0;
        while i < input.len()
            invariant
                i <= input.len(),
                !keep_path,
                inp == input.deep_view(),
                pi_split_ok(inp.subrange(0, i as int), cwd@),
                out.deep_view() == Seq::new(
                    i as nat,
                    |j: int| split_path_spec(inp[j], cwd@).unwrap(),
                ),
            decreases input.len() - i,
        {
            match split_path(&input[i], cwd) {
                Some(pair) => {
                    proof {
                        assert(inp[i as int] == input@[i as int]@);
                        assert(pair.deep_view() == split_path_spec(inp[i as int], cwd@).unwrap());
                    }
                    let ghost prev = out;
                    out.push(pair);
                    proof {
                        lemma_deep_view_push(out, prev, pair);
                        assert(out.deep_view() =~= Seq::new(
                            (i + 1) as nat,
                            |j: int| split_path_spec(inp[j], cwd@).unwrap(),
                        ));
                        assert(inp.subrange(0, (i + 1) as int).drop_last() =~= inp.subrange(
                            0,
                            i as int,
                        ));
                        assert(inp.subrange(0, (i + 1) as int).last() == inp[i as int]);
                        assert(pi_split_ok(inp.subrange(0, (i + 1) as int), cwd@));
                    }
                },
                None => {
                    proof {
                        assert(inp[i as int] == input@[i as int]@);
                        assert(split_path_spec(inp[i as int], cwd@) is None);
                        lemma_pi_split_bad(inp, cwd@, i as int);
                    }
                    return Err(ArcError::InputNotFound);
                },
            }
            i = i + 1;
        }
        proof {
            assert(inp.subrange(0, inp.len() as int) =~= inp);
            assert(out.deep_view() =~= Seq::new(
                inp.len(),
                |j: int| split_path_spec(inp[j], cwd@).unwrap(),
            ));
        }
        Ok(out)
    }
}

/// The empty-Zip recipe: archive a placeholder directory, then delete its
/// entry from the archive.
pub open spec fn zip_empty_spec(v: bool, tmp: Seq<char>) -> PlanModel {
    PlanModel {
        make_dirs: seq![join_path_spec(tmp, "_"@)],
        stage: None,
        steps: seq![
            cmd_model(
                "zip"@,
                seq!["-r"@] + flag_unless(v, "-q"@) + seq!["archive.zip"@, "_"@],
                tmp,
            ),
            cmd_model(
                "zip"@,
                seq!["-d"@] + flag_unless(v, "-q"@) + seq!["archive.zip"@, "_"@],
                tmp,
            ),
        ],
        archive: join_path_spec(tmp, "archive.zip"@),
        use_temp_position: true,
    }
}

fn plan_zip_empty(verbose: bool, tmp: &String) -> (p: Plan)
    ensures
        p@ == zip_empty_spec(verbose, tmp@),
{
    let mut make_dirs: Vec<String> = Vec::new();
    make_dirs.push(join_path(tmp, "_"));
    let mut steps: Vec<Cmd> = Vec::new();
    let mut a1: Vec<String> = Vec::new();
    arg_lit(&mut a1, "-r");
    if !verbose {
        arg_lit(&mut a1, "-q");
    }
    arg_lit(&mut a1, "archive.zip");
    arg_lit(&mut a1, "_");
    proof {
        assert(a1.deep_view() =~= seq!["-r"@] + flag_unless(verbose, "-q"@) + seq![
            "archive.zip"@,
            "_"@,
        ]);
    }
    steps.push(Cmd::new_cwd("zip", a1, tmp));
    let mut a2: Vec<String> = Vec::new();
    arg_lit(&mut a2, "-d");
    if !verbose {
        arg_lit(&mut a2, "-q");
    }
    arg_lit(&mut a2, "archive.zip");
    arg_lit(&mut a2, "_");
    proof {
        assert(a2.deep_view() =~= seq!["-d"@] + flag_unless(verbose, "-q"@) + seq![
            "archive.zip"@,
            "_"@,
        ]);
    }
    steps.push(Cmd::new_cwd("zip", a2, tmp));
    let p = Plan {
        make_dirs,
        stage: None,
        steps,
        archive: join_path(tmp, "archive.zip"),
        use_temp_position: true,
    };
    proof {
        assert(p@ =~~= zip_empty_spec(verbose, tmp@));
    }
    p
}

/// The Zip recipe for real inputs: one recursive add per input, hidden files
/// and platform metadata directories excluded, at the mapped rate.
pub open spec fn zip_steps_spec(
    pi: Seq<(Seq<char>, Seq<char>)>,
    v: bool,
    r: u8,
    tmp: Seq<char>,
) -> Seq<CmdModel> {
    Seq::new(
        pi.len(),
        |i: int| cmd_model(
            "zip"@,
            seq!["-r"@, "-x"@, ".*"@, "-x"@, "__MACOSX"@] + flag_unless(v, "-q"@) + seq![
                dash(r),
                join_path_spec(tmp, "archive.zip"@),
                pi[i].1,
            ],
            pi[i].0,
        ),
    )
}

/// The whole Zip plan for real inputs.
pub open spec fn zip_any_spec(
    pi: Seq<(Seq<char>, Seq<char>)>,
    v: bool,
    r: u8,
    tmp: Seq<char>,
) -> PlanModel {
    PlanModel {
        make_dirs: seq![],
        stage: None,
        steps: zip_steps_spec(pi, v, r, tmp),
        archive: join_path_spec(tmp, "archive.zip"@),
        use_temp_position: true,
    }
}

fn plan_zip(pi: &Vec<(String, String)>, verbose: bool, rate: u8, tmp: &String) -> (p: Plan)
    requires
        rate < 100,
    ensures
        p@ == zip_any_spec(pi.deep_view(), verbose, rate, tmp@),
{
    let ghost pim = pi.deep_view();
    let archive = join_path(tmp, "archive.zip");
    let mut steps: Vec<Cmd> = Vec::new();
    let mut i: usize = 0;
    while i < pi.len()
        invariant
            i <= pi.len(),
            rate < 100,
            pim == pi.deep_view(),
            archive@ == join_path_spec(tmp@, "archive.zip"@),
            steps_model(steps@) == zip_steps_spec(pim, verbose, rate, tmp@).subrange(0, i as int),
        decreases pi.len() - i,
    {
        let mut a: Vec<String> = Vec::new();
        arg_lit(&mut a, "-r");
        arg_lit(&mut a, "-x");
        arg_lit(&mut a, ".*");
        arg_lit(&mut a, "-x");
        arg_lit(&mut a, "__MACOSX");
        if !verbose {
            arg_lit(&mut a, "-q");
        }
        arg_own(&mut a, pre_num("-", rate));
        arg_own(&mut a, archive.clone());
        arg_own(&mut a, pi[i].1.clone());
        let c = Cmd::new_cwd("zip", a, &pi[i].0);
        proof {
            assert(pim[i as int] == (pi@[i as int].0@, pi@[i as int].1@));
            assert(c@ =~~= zip_steps_spec(pim, verbose, rate, tmp@)[i as int]);
        }
        let ghost prev = steps@;
        steps.push(c);
        proof {
            lemma_steps_model_push(steps@, prev, c);
            assert(zip_steps_spec(pim, verbose, rate, tmp@).subrange(0, (i + 1) as int)
                =~= zip_steps_spec(pim, verbose, rate, tmp@).subrange(0, i as int).push(
                    zip_steps_spec(pim, verbose, rate, tmp@)[i as int],
                ));
        }
        i = i + 1;
    }
    proof {
        assert(zip_steps_spec(pim, verbose, rate, tmp@).subrange(0, pim.len() as int)
            =~= zip_steps_spec(pim, verbose, rate, tmp@));
    }
    let p = Plan {
        make_dirs: Vec::new(),
        stage: None,
        steps,
        archive,
        use_temp_position: true,
    };
    proof {
        assert(p@ =~~= zip_any_spec(pim, verbose, rate, tmp@));
    }
    p
}

/// The empty-SevenZ recipe: archive a placeholder directory, then delete its
/// entry again; the tool's own output is shown only when verbose.
pub open spec fn sevenz_empty_spec(v: bool, tmp: Seq<char>) -> PlanModel {
    PlanModel {
        make_dirs: seq![join_path_spec(tmp, "_"@)],
        stage: None,
        steps: seq![
            CmdModel {
                inherit_output: v,
                ..cmd_model("7z"@, seq!["a"@, "-ba"@, "-t7z"@, "archive.7z"@, "_"@], tmp)
            },
            CmdModel {
                inherit_output: v,
                ..cmd_model("7z"@, seq!["d"@, "-ba"@, "archive.7z"@, "_"@], tmp)
            },
        ],
        archive: join_path_spec(tmp, "archive.7z"@),
        use_temp_position: true,
    }
}

fn plan_sevenz_empty(verbose: bool, tmp: &String) -> (p: Plan)
    ensures
        p@ == sevenz_empty_spec(verbose, tmp@),
{
    let mut make_dirs: Vec<String> = Vec::new();
    make_dirs.push(join_path(tmp, "_"));
    let mut steps: Vec<Cmd> = Vec::new();
    let mut a1: Vec<String> = Vec::new();
    arg_lit(&mut a1, "a");
    arg_lit(&mut a1, "-ba");
    arg_lit(&mut a1, "-t7z");
    arg_lit(&mut a1, "archive.7z");
    arg_lit(&mut a1, "_");
    proof {
        assert(a1.deep_view() =~= seq!["a"@, "-ba"@, "-t7z"@, "archive.7z"@, "_"@]);
    }
    let mut c1 = Cmd::new_cwd("7z", a1, tmp);
    c1.inherit_output = verbose;
    steps.push(c1);
    let mut a2: Vec<String> = Vec::new();
    arg_lit(&mut a2, "d");
    arg_lit(&mut a2, "-ba");
    arg_lit(&mut a2, "archive.7z");
    arg_lit(&mut a2, "_");
    proof {
        assert(a2.deep_view() =~= seq!["d"@, "-ba"@, "archive.7z"@, "_"@]);
    }
    let mut c2 = Cmd::new_cwd("7z", a2, tmp);
    c2.inherit_output = verbose;
    steps.push(c2);
    let p = Plan {
        make_dirs,
        stage: None,
        steps,
        archive: join_path(tmp, "archive.7z"),
        use_temp_position: true,
    };
    proof {
        assert(p@ =~~= sevenz_empty_spec(verbose, tmp@));
    }
    p
}

/// The SevenZ recipe for real inputs: one add per input, hidden files
/// excluded, at the mapped rate; output shown only when verbose.
pub open spec fn sevenz_steps_spec(
    pi: Seq<(Seq<char>, Seq<char>)>,
    v: bool,
    r: u8,
    tmp: Seq<char>,
) -> Seq<CmdModel> {
    Seq::new(
        pi.len(),
        |i: int| CmdModel {
            inherit_output: v,
            ..cmd_model(
                "7z"@,
                seq!["a"@, "-ba"@, "-t7z"@, "-xr!.*"@] + seq![
                    "-mx="@ + dec_u8(r),
                    join_path_spec(tmp, "archive.7z"@),
                    pi[i].1,
                ],
                pi[i].0,
            )
        },
    )
}

/// The whole SevenZ plan for real inputs.
pub open spec fn sevenz_any_spec(
    pi: Seq<(Seq<char>, Seq<char>)>,
    v: bool,
    r: u8,
    tmp: Seq<char>,
) -> PlanModel {
    PlanModel {
        make_dirs: seq![],
        stage: None,
        steps: sevenz_steps_spec(pi, v, r, tmp),
        archive: join_path_spec(tmp, "archive.7z"@),
        use_temp_position: true,
    }
}

fn plan_sevenz(pi: &Vec<(String, String)>, verbose: bool, rate: u8, tmp: &String) -> (p: Plan)
    requires
        rate < 100,
    ensures
        p@ == sevenz_any_spec(pi.deep_view(), verbose, rate, tmp@),
{
    let ghost pim = pi.deep_view();
    let archive = join_path(tmp, "archive.7z");
    let mut steps: Vec<Cmd> = Vec::new();
    let mut i: usize = 0;
    while i < pi.len()
        invariant
            i <= pi.len(),
            rate < 100,
            pim == pi.deep_view(),
            archive@ == join_path_spec(tmp@, "archive.7z"@),
            steps_model(steps@) == sevenz_steps_spec(pim, verbose, rate, tmp@).subrange(
                0,
                i as int,
            ),
        decreases pi.len() - i,
    {
        let mut a: Vec<String> = Vec::new();
        arg_lit(&mut a, "a");
        arg_lit(&mut a, "-ba");
        arg_lit(&mut a, "-t7z");
        arg_lit(&mut a, "-xr!.*");
        arg_own(&mut a, pre_num("-mx=", rate));
        arg_own(&mut a, archive.clone());
        arg_own(&mut a, pi[i].1.clone());
        let mut c = Cmd::new_cwd("7z", a, &pi[i].0);
        c.inherit_output = verbose;
        proof {
            assert(pim[i as int] == (pi@[i as int].0@, pi@[i as int].1@));
            assert(c@ =~~= sevenz_steps_spec(pim, verbose, rate, tmp@)[i as int]);
        }
        let ghost prev = steps@;
        steps.push(c);
        proof {
            lemma_steps_model_push(steps@, prev, c);
            assert(sevenz_steps_spec(pim, verbose, rate, tmp@).subrange(0, (i + 1) as int)
                =~= sevenz_steps_spec(pim, verbose, rate, tmp@).subrange(0, i as int).push(
                    sevenz_steps_spec(pim, verbose, rate, tmp@)[i as int],
                ));
        }
        i = i + 1;
    }
    proof {
        assert(sevenz_steps_spec(pim, verbose, rate, tmp@).subrange(0, pim.len() as int)
            =~= sevenz_steps_spec(pim, verbose, rate, tmp@));
    }
    let p = Plan {
        make_dirs: Vec::new(),
        stage: None,
        steps,
        archive,
        use_temp_position: true,
    };
    proof {
        assert(p@ =~~= sevenz_any_spec(pim, verbose, rate, tmp@));
    }
    p
}

/// The Rar recipe for real inputs: one recursive add per input at the mapped
/// rate, silenced unless verbose.  An empty Rar archive has no recipe.
pub open spec fn rar_steps_spec(
    pi: Seq<(Seq<char>, Seq<char>)>,
    v: bool,
    r: u8,
    tmp: Seq<char>,
) -> Seq<CmdModel> {
    Seq::new(
        pi.len(),
        |i: int| cmd_model(
            "rar"@,
            seq!["a"@, "-r"@] + flag_unless(v, "-inul"@) + seq![
                "-m"@ + dec_u8(r),
                join_path_spec(tmp, "archive.rar"@),
                pi[i].1,
            ],
            pi[i].0,
        ),
    )
}

/// The whole Rar plan for real inputs.
pub open spec fn rar_any_spec(
    pi: Seq<(Seq<char>, Seq<char>)>,
    v: bool,
    r: u8,
    tmp: Seq<char>,
) -> PlanModel {
    PlanModel {
        make_dirs: seq![],
        stage: None,
        steps: rar_steps_spec(pi, v, r, tmp),
        archive: join_path_spec(tmp, "archive.rar"@),
        use_temp_position: true,
    }
}

fn plan_rar(pi: &Vec<(String, String)>, verbose: bool, rate: u8, tmp: &String) -> (p: Plan)
    requires
        rate < 100,
    ensures
        p@ == rar_any_spec(pi.deep_view(), verbose, rate, tmp@),
{
    let ghost pim = pi.deep_view();
    let archive = join_path(tmp, "archive.rar");
    let mut steps: Vec<Cmd> = Vec::new();
    let mut i: usize = 0;
    while i < pi.len()
        invariant
            i <= pi.len(),
            rate < 100,
            pim == pi.deep_view(),
            archive@ == join_path_spec(tmp@, "archive.rar"@),
            steps_model(steps@) == rar_steps_spec(pim, verbose, rate, tmp@).subrange(0, i as int),
        decreases pi.len() - i,
    {
        let mut a: Vec<String> = Vec::new();
        arg_lit(&mut a, "a");
        arg_lit(&mut a, "-r");
        if !verbose {
            arg_lit(&mut a, "-inul");
        }
        arg_own(&mut a, pre_num("-m", rate));
        arg_own(&mut a, archive.clone());
        arg_own(&mut a, pi[i].1.clone());
        let c = Cmd::new_cwd("rar", a, &pi[i].0);
        proof {
            assert(pim[i as int] == (pi@[i as int].0@, pi@[i as int].1@));
            assert(c@ =~~= rar_steps_spec(pim, verbose, rate, tmp@)[i as int]);
        }
        let ghost prev = steps@;
        steps.push(c);
        proof {
            lemma_steps_model_push(steps@, prev, c);
            assert(rar_steps_spec(pim, verbose, rate, tmp@).subrange(0, (i + 1) as int)
                =~= rar_steps_spec(pim, verbose, rate, tmp@).subrange(0, i as int).push(
                    rar_steps_spec(pim, verbose, rate, tmp@)[i as int],
                ));
        }
        i = i + 1;
    }
    proof {
        assert(rar_steps_spec(pim, verbose, rate, tmp@).subrange(0, pim.len() as int)
            =~= rar_steps_spec(pim, verbose, rate, tmp@));
    }
    let p = Plan {
        make_dirs: Vec::new(),
        stage: None,
        steps,
        archive,
        use_temp_position: true,
    };
    proof {
        assert(p@ =~~= rar_any_spec(pim, verbose, rate, tmp@));
    }
    p
}

/// The empty-Lha recipe: archive a placeholder directory while excluding it
/// from the archive's entries.
pub open spec fn lha_empty_spec(v: bool, tmp: Seq<char>) -> PlanModel {
    PlanModel {
        make_dirs: seq![join_path_spec(tmp, "_"@)],
        stage: None,
        steps: seq![
            cmd_model(
                "lha"@,
                seq!["-a"@, "archive.lzh"@, "-x=_"@] + flag_unless(v, "-q"@) + seq!["_"@],
                tmp,
            ),
        ],
        archive: join_path_spec(tmp, "archive.lhz"@),
        use_temp_position: true,
    }
}

fn plan_lha_empty(verbose: bool, tmp: &String) -> (p: Plan)
    ensures
        p@ == lha_empty_spec(verbose, tmp@),
{
    let mut make_dirs: Vec<String> = Vec::new();
    make_dirs.push(join_path(tmp, "_"));
    let mut a: Vec<String> = Vec::new();
    arg_lit(&mut a, "-a");
    arg_lit(&mut a, "archive.lzh");
    arg_lit(&mut a, "-x=_");
    if !verbose {
        arg_lit(&mut a, "-q");
    }
    arg_lit(&mut a, "_");
    proof {
        assert(a.deep_view() =~= seq!["-a"@, "archive.lzh"@, "-x=_"@] + flag_unless(
            verbose,
            "-q"@,
        ) + seq!["_"@]);
    }
    let mut steps: Vec<Cmd> = Vec::new();
    steps.push(Cmd::new_cwd("lha", a, tmp));
    let p = Plan {
        make_dirs,
        stage: None,
        steps,
        archive: join_path(tmp, "archive.lhz"),
        use_temp_position: true,
    };
    proof {
        assert(p@ =~~= lha_empty_spec(verbose, tmp@));
    }
    p
}

/// The Lha recipe for real inputs: one add per input.
pub open spec fn lha_steps_spec(
    pi: Seq<(Seq<char>, Seq<char>)>,
    v: bool,
    tmp: Seq<char>,
) -> Seq<CmdModel> {
    Seq::new(
        pi.len(),
        |i: int| cmd_model(
            "lha"@,
            seq!["-a"@] + flag_unless(v, "-q"@) + seq![
                join_path_spec(tmp, "archive.lhz"@),
                pi[i].1,
            ],
            pi[i].0,
        ),
    )
}

/// The whole Lha plan for real inputs.
pub open spec fn lha_any_spec(
    pi: Seq<(Seq<char>, Seq<char>)>,
    v: bool,
    tmp: Seq<char>,
) -> PlanModel {
    PlanModel {
        make_dirs: seq![],
        stage: None,
        steps: lha_steps_spec(pi, v, tmp),
        archive: join_path_spec(tmp, "archive.lhz"@),
        use_temp_position: true,
    }
}

fn plan_lha(pi: &Vec<(String, String)>, verbose: bool, tmp: &String) -> (p: Plan)
    ensures
        p@ == lha_any_spec(pi.deep_view(), verbose, tmp@),
{
    let ghost pim = pi.deep_view();
    let archive = join_path(tmp, "archive.lhz");
    let mut steps: Vec<Cmd> = Vec::new();
    let mut i: usize = 0;
    while i < pi.len()
        invariant
            i <= pi.len(),
            pim == pi.deep_view(),
            archive@ == join_path_spec(tmp@, "archive.lhz"@),
            steps_model(steps@) == lha_steps_spec(pim, verbose, tmp@).subrange(0, i as int),
        decreases pi.len() - i,
    {
        let mut a: Vec<String> = Vec::new();
        arg_lit(&mut a, "-a");
        if !verbose {
            arg_lit(&mut a, "-q");
        }
        arg_own(&mut a, archive.clone());
        arg_own(&mut a, pi[i].1.clone());
        let c = Cmd::new_cwd("lha", a, &pi[i].0);
        proof {
            assert(pim[i as int] == (pi@[i as int].0@, pi@[i as int].1@));
            assert(c@ =~~= lha_steps_spec(pim, verbose, tmp@)[i as int]);
        }
        let ghost prev = steps@;
        steps.push(c);
        proof {
            lemma_steps_model_push(steps@, prev, c);
            assert(lha_steps_spec(pim, verbose, tmp@).subrange(0, (i + 1) as int)
                =~= lha_steps_spec(pim, verbose, tmp@).subrange(0, i as int).push(
                    lha_steps_spec(pim, verbose, tmp@)[i as int],
                ));
        }
        i = i + 1;
    }
    proof {
        assert(lha_steps_spec(pim, verbose, tmp@).subrange(0, pim.len() as int) =~= lha_steps_spec(
            pim,
            verbose,
            tmp@,
        ));
    }
    let p = Plan {
        make_dirs: Vec::new(),
        stage: None,
        steps,
        archive,
        use_temp_position: true,
    };
    proof {
        assert(p@ =~~= lha_any_spec(pim, verbose, tmp@));
    }
    p
}

/// The Zpaq recipe for real inputs: one add per input.  An empty Zpaq
/// archive has no recipe.
pub open spec fn zpaq_steps_spec(pi: Seq<(Seq<char>, Seq<char>)>, tmp: Seq<char>) -> Seq<
    CmdModel,
> {
    Seq::new(
        pi.len(),
        |i: int| cmd_model(
            "zpaq"@,
            seq!["a"@, join_path_spec(tmp, "archive.zpaq"@), pi[i].1],
            pi[i].0,
        ),
    )
}

/// The whole Zpaq plan for real inputs.
pub open spec fn zpaq_any_spec(pi: Seq<(Seq<char>, Seq<char>)>, tmp: Seq<char>) -> PlanModel {
    PlanModel {
        make_dirs: seq![],
        stage: None,
        steps: zpaq_steps_spec(pi, tmp),
        archive: join_path_spec(tmp, "archive.zpaq"@),
        use_temp_position: true,
    }
}

fn plan_zpaq(pi: &Vec<(String, String)>, tmp: &String) -> (p: Plan)
    ensures
        p@ == zpaq_any_spec(pi.deep_view(), tmp@),
{
    let ghost pim = pi.deep_view();
    let archive = join_path(tmp, "archive.zpaq");
    let mut steps: Vec<Cmd> = Vec::new();
    let mut i: usize = 0;
    while i < pi.len()
        invariant
            i <= pi.len(),
            pim == pi.deep_view(),
            archive@ == join_path_spec(tmp@, "archive.zpaq"@),
            steps_model(steps@) == zpaq_steps_spec(pim, tmp@).subrange(0, i as int),
        decreases pi.len() - i,
    {
        let mut a: Vec<String> = Vec::new();
        arg_lit(&mut a, "a");
        arg_own(&mut a, archive.clone());
        arg_own(&mut a, pi[i].1.clone());
        let c = Cmd::new_cwd("zpaq", a, &pi[i].0);
        proof {
            assert(pim[i as int] == (pi@[i as int].0@, pi@[i as int].1@));
            assert(c@ =~~= zpaq_steps_spec(pim, tmp@)[i as int]);
        }
        let ghost prev = steps@;
        steps.push(c);
        proof {
            lemma_steps_model_push(steps@, prev, c);
            assert(zpaq_steps_spec(pim, tmp@).subrange(0, (i + 1) as int) =~= zpaq_steps_spec(
                pim,
                tmp@,
            ).subrange(0, i as int).push(zpaq_steps_spec(pim, tmp@)[i as int]));
        }
        i = i + 1;
    }
    proof {
        assert(zpaq_steps_spec(pim, tmp@).subrange(0, pim.len() as int) =~= zpaq_steps_spec(
            pim,
            tmp@,
        ));
    }
    let p = Plan {
        make_dirs: Vec::new(),
        stage: None,
        steps,
        archive,
        use_temp_position: true,
    };
    proof {
        assert(p@ =~~= zpaq_any_spec(pim, tmp@));
    }
    p
}

/// The empty-Wim recipe: capture a placeholder directory.
pub open spec fn wim_empty_spec(tmp: Seq<char>) -> PlanModel {
    PlanModel {
        make_dirs: seq![join_path_spec(tmp, "_"@)],
        stage: None,
        steps: seq![cmd_model("wimcapture"@, seq!["_"@, "image.wim"@], tmp)],
        archive: join_path_spec(tmp, "image.wim"@),
        use_temp_position: true,
    }
}

fn plan_wim_empty(tmp: &String) -> (p: Plan)
    ensures
        p@ == wim_empty_spec(tmp@),
{
    let mut make_dirs: Vec<String> = Vec::new();
    make_dirs.push(join_path(tmp, "_"));
    let mut a: Vec<String> = Vec::new();
    arg_lit(&mut a, "_");
    arg_lit(&mut a, "image.wim");
    let mut steps: Vec<Cmd> = Vec::new();
    steps.push(Cmd::new_cwd("wimcapture", a, tmp));
    let p = Plan {
        make_dirs,
        stage: None,
        steps,
        archive: join_path(tmp, "image.wim"),
        use_temp_position: true,
    };
    proof {
        assert(p@ =~~= wim_empty_spec(tmp@));
    }
    p
}

/// The single-directory Wim recipe: capture the directory itself.
pub open spec fn wim_dir_spec(dir: Seq<char>, cd: Seq<char>, tmp: Seq<char>) -> PlanModel {
    PlanModel {
        make_dirs: seq![],
        stage: None,
        steps: seq![
            cmd_model("wimcapture"@, seq![dir, join_path_spec(tmp, "image.wim"@)], cd),
        ],
        archive: join_path_spec(tmp, "image.wim"@),
        use_temp_position: true,
    }
}

fn plan_wim_dir(dir: &String, cd: &String, tmp: &String) -> (p: Plan)
    ensures
        p@ == wim_dir_spec(dir@, cd@, tmp@),
{
    let archive = join_path(tmp, "image.wim");
    let mut a: Vec<String> = Vec::new();
    arg_own(&mut a, dir.clone());
    arg_own(&mut a, archive.clone());
    let mut steps: Vec<Cmd> = Vec::new();
    steps.push(Cmd::new_cwd("wimcapture", a, cd));
    let p = Plan {
        make_dirs: Vec::new(),
        stage: None,
        steps,
        archive,
        use_temp_position: true,
    };
    proof {
        assert(p@ =~~= wim_dir_spec(dir@, cd@, tmp@));
    }
    p
}

/// The empty-Aar recipe: archive the workspace itself while including only a
/// (nonexistent) placeholder, which yields an empty archive.
pub open spec fn aar_empty_spec(v: bool, tmp: Seq<char>) -> PlanModel {
    PlanModel {
        make_dirs: seq![],
        stage: None,
        steps: seq![
            cmd_model(
                "aa"@,
                seq!["archive"@, "-d"@, tmp, "-include-path"@, "_"@, "-o"@, "archive.aar"@]
                    + flag_if(v, "-v"@),
                tmp,
            ),
        ],
        archive: join_path_spec(tmp, "archive.aar"@),
        use_temp_position: true,
    }
}

fn plan_aar_empty(verbose: bool, tmp: &String) -> (p: Plan)
    ensures
        p@ == aar_empty_spec(verbose, tmp@),
{
    let mut a: Vec<String> = Vec::new();
    arg_lit(&mut a, "archive");
    arg_lit(&mut a, "-d");
    arg_own(&mut a, tmp.clone());
    arg_lit(&mut a, "-include-path");
    arg_lit(&mut a, "_");
    arg_lit(&mut a, "-o");
    arg_lit(&mut a, "archive.aar");
    if verbose {
        arg_lit(&mut a, "-v");
    }
    proof {
        assert(a.deep_view() =~= seq![
            "archive"@,
            "-d"@,
            tmp@,
            "-include-path"@,
            "_"@,
            "-o"@,
            "archive.aar"@,
        ] + flag_if(verbose, "-v"@));
    }
    let mut steps: Vec<Cmd> = Vec::new();
    steps.push(Cmd::new_cwd("aa", a, tmp));
    let p = Plan {
        make_dirs: Vec::new(),
        stage: None,
        steps,
        archive: join_path(tmp, "archive.aar"),
        use_temp_position: true,
    };
    proof {
        assert(p@ =~~= aar_empty_spec(verbose, tmp@));
    }
    p
}

/// The single-directory Aar recipe: archive that directory directly.
pub open spec fn aar_dir_spec(dir: Seq<char>, v: bool, cd: Seq<char>, tmp: Seq<char>) -> PlanModel {
    PlanModel {
        make_dirs: seq![],
        stage: None,
        steps: seq![
            cmd_model(
                "aa"@,
                seq!["archive"@, "-d"@, dir, "-o"@] + flag_if(v, "-v"@) + seq![
                    join_path_spec(tmp, "archive.aar"@),
                ],
                cd,
            ),
        ],
        archive: join_path_spec(tmp, "archive.aar"@),
        use_temp_position: true,
    }
}

fn plan_aar_dir(dir: &String, verbose: bool, cd: &String, tmp: &String) -> (p: Plan)
    ensures
        p@ == aar_dir_spec(dir@, verbose, cd@, tmp@),
{
    let archive = join_path(tmp, "archive.aar");
    let mut a: Vec<String> = Vec::new();
    arg_lit(&mut a, "archive");
    arg_lit(&mut a, "-d");
    arg_own(&mut a, dir.clone());
    arg_lit(&mut a, "-o");
    if verbose {
        arg_lit(&mut a, "-v");
    }
    arg_own(&mut a, archive.clone());
    proof {
        assert(a.deep_view() =~= seq!["archive"@, "-d"@, dir@, "-o"@] + flag_if(verbose, "-v"@)
            + seq![join_path_spec(tmp@, "archive.aar"@)]);
    }
    let mut steps: Vec<Cmd> = Vec::new();
    steps.push(Cmd::new_cwd("aa", a, cd));
    let p = Plan {
        make_dirs: Vec::new(),
        stage: None,
        steps,
        archive,
        use_temp_position: true,
    };
    proof {
        assert(p@ =~~= aar_dir_spec(dir@, verbose, cd@, tmp@));
    }
    p
}

/// The include-path flag pair of each input, in order.
pub open spec fn aar_includes_spec(input: Seq<Seq<char>>) -> Seq<Seq<char>> {
    Seq::new(
        2 * input.len(),
        |k: int| if k % 2 == 0 {
            "-include-path"@
        } else {
            input[k / 2]
        },
    )
}

/// The Aar recipe for files or several inputs: archive the current directory
/// while including only the inputs, by one include-path pair each.
pub open spec fn aar_misc_spec(
    input: Seq<Seq<char>>,
    v: bool,
    cd: Seq<char>,
    tmp: Seq<char>,
) -> PlanModel {
    PlanModel {
        make_dirs: seq![],
        stage: None,
        steps: seq![
            cmd_model(
                "aa"@,
                seq!["archive"@, "-d"@, cd, "-o"@] + flag_if(v, "-v"@) + seq![
                    join_path_spec(tmp, "archive.aar"@),
                ] + aar_includes_spec(input),
                cd,
            ),
        ],
        archive: join_path_spec(tmp, "archive.aar"@),
        use_temp_position: true,
    }
}

fn plan_aar_misc(input: &Vec<String>, verbose: bool, cd: &String, tmp: &String) -> (p: Plan)
    ensures
        p@ == aar_misc_spec(input.deep_view(), verbose, cd@, tmp@),
{
    let ghost inp = input.deep_view();
    let archive = join_path(tmp, "archive.aar");
    let mut a: Vec<String> = Vec::new();
    arg_lit(&mut a, "archive");
    arg_lit(&mut a, "-d");
    arg_own(&mut a, cd.clone());
    arg_lit(&mut a, "-o");
    if verbose {
        arg_lit(&mut a, "-v");
    }
    arg_own(&mut a, archive.clone());
    let ghost base = seq!["archive"@, "-d"@, cd@, "-o"@] + flag_if(verbose, "-v"@) + seq![
        join_path_spec(tmp@, "archive.aar"@),
    ];
    proof {
        assert(a.deep_view() =~= base);
    }
    let mut i: usize = 0;
    while i < input.len()
        invariant
            i <= input.len(),
            inp == input.deep_view(),
            a.deep_view() == base + aar_includes_spec(inp).subrange(0, 2 * i as int),
        decreases input.len() - i,
    {
        arg_lit(&mut a, "-include-path");
        arg_own(&mut a, input[i].clone());
        proof {
            assert(aar_includes_spec(inp)[2 * i as int] == "-include-path"@);
            assert(aar_includes_spec(inp)[2 * i as int + 1] == inp[i as int]);
            assert(a.deep_view() =~= base + aar_includes_spec(inp).subrange(
                0,
                2 * (i + 1) as int,
            ));
        }
        i = i + 1;
    }
    proof {
        assert(aar_includes_spec(inp).subrange(0, 2 * inp.len() as int) =~= aar_includes_spec(
            inp,
        ));
    }
    let mut steps: Vec<Cmd> = Vec::new();
    steps.push(Cmd::new_cwd("aa", a, cd));
    let p = Plan {
        make_dirs: Vec::new(),
        stage: None,
        steps,
        archive,
        use_temp_position: true,
    };
    proof {
        assert(p@ =~~= aar_misc_spec(inp, verbose, cd@, tmp@));
    }
    p
}

/// The empty-Dmg recipe: image a fresh directory named after the requested
/// volume name, writing straight to the destination.
pub open spec fn dmg_empty_spec(
    v: bool,
    image_name: Seq<char>,
    output: Seq<char>,
    cd: Seq<char>,
    tmp: Seq<char>,
) -> PlanModel {
    PlanModel {
        make_dirs: seq![join_path_spec(tmp, image_name)],
        stage: None,
        steps: seq![
            cmd_model(
                "hdiutil"@,
                seq![
                    "create"@,
                    "-nospotlight"@,
                    "-layout"@,
                    "GPTSPUD"@,
                    "-fs"@,
                    "Case-sensitive APFS"@,
                    "-type"@,
                    "UDZO"@,
                    "-srcfolder"@,
                    join_path_spec(tmp, image_name),
                ] + flag_unless(v, "-quiet"@) + seq![output],
                cd,
            ),
        ],
        archive: Seq::empty(),
        use_temp_position: false,
    }
}

fn plan_dmg_empty(verbose: bool, image_name: &String, output: &String, cd: &String, tmp: &String) -> (p: Plan)
    ensures
        p@ == dmg_empty_spec(verbose, image_name@, output@, cd@, tmp@),
{
    let vol = join_path(tmp, image_name.as_str());
    let mut make_dirs: Vec<String> = Vec::new();
    make_dirs.push(vol.clone());
    let mut a: Vec<String> = Vec::new();
    arg_lit(&mut a, "create");
    arg_lit(&mut a, "-nospotlight");
    arg_lit(&mut a, "-layout");
    arg_lit(&mut a, "GPTSPUD");
    arg_lit(&mut a, "-fs");
    arg_lit(&mut a, "Case-sensitive APFS");
    arg_lit(&mut a, "-type");
    arg_lit(&mut a, "UDZO");
    arg_lit(&mut a, "-srcfolder");
    arg_own(&mut a, vol);
    if !verbose {
        arg_lit(&mut a, "-quiet");
    }
    arg_own(&mut a, output.clone());
    let mut steps: Vec<Cmd> = Vec::new();
    steps.push(Cmd::new_cwd("hdiutil", a, cd));
    let p = Plan {
        make_dirs,
        stage: None,
        steps,
        archive: String::new(),
        use_temp_position: false,
    };
    proof {
        assert(p@ =~~= dmg_empty_spec(verbose, image_name@, output@, cd@, tmp@));
    }
    p
}

/// The single-directory Dmg recipe: image the directory into the workspace.
pub open spec fn dmg_dir_spec(dir: Seq<char>, v: bool, cd: Seq<char>, tmp: Seq<char>) -> PlanModel {
    PlanModel {
        make_dirs: seq![],
        stage: None,
        steps: seq![
            cmd_model(
                "hdiutil"@,
                seq![
                    "create"@,
                    "-quiet"@,
                    "-nospotlight"@,
                    "-layout"@,
                    "GPTSPUD"@,
                    "-fs"@,
                    "Case-sensitive APFS"@,
                    "-type"@,
                    "UDZO"@,
                    "-srcfolder"@,
                    dir,
                ] + flag_unless(v, "-quiet"@) + seq![join_path_spec(tmp, "image.dmg"@)],
                cd,
            ),
        ],
        archive: join_path_spec(tmp, "image.dmg"@),
        use_temp_position: true,
    }
}

fn plan_dmg_dir(dir: &String, verbose: bool, cd: &String, tmp: &String) -> (p: Plan)
    ensures
        p@ == dmg_dir_spec(dir@, verbose, cd@, tmp@),
{
    let archive = join_path(tmp, "image.dmg");
    let mut a: Vec<String> = Vec::new();
    arg_lit(&mut a, "create");
    arg_lit(&mut a, "-quiet");
    arg_lit(&mut a, "-nospotlight");
    arg_lit(&mut a, "-layout");
    arg_lit(&mut a, "GPTSPUD");
    arg_lit(&mut a, "-fs");
    arg_lit(&mut a, "Case-sensitive APFS");
    arg_lit(&mut a, "-type");
    arg_lit(&mut a, "UDZO");
    arg_lit(&mut a, "-srcfolder");
    arg_own(&mut a, dir.clone());
    if !verbose {
        arg_lit(&mut a, "-quiet");
    }
    arg_own(&mut a, archive.clone());
    let mut steps: Vec<Cmd> = Vec::new();
    steps.push(Cmd::new_cwd("hdiutil", a, cd));
    let p = Plan {
        make_dirs: Vec::new(),
        stage: None,
        steps,
        archive,
        use_temp_position: true,
    };
    proof {
        assert(p@ =~~= dmg_dir_spec(dir@, verbose, cd@, tmp@));
    }
    p
}

/// The empty-Iso recipe: build a hybrid image of a fresh directory named
/// after the requested volume name, writing straight to the destination.
pub open spec fn iso_empty_spec(
    v: bool,
    image_name: Seq<char>,
    output: Seq<char>,
    cd: Seq<char>,
    tmp: Seq<char>,
) -> PlanModel {
    PlanModel {
        make_dirs: seq![join_path_spec(tmp, image_name)],
        stage: None,
        steps: seq![
            cmd_model(
                "hdiutil"@,
                seq!["makehybrid"@, "-iso"@, "-joliet"@, "-o"@, output] + flag_unless(
                    v,
                    "-quiet"@,
                ) + seq![join_path_spec(tmp, image_name)],
                cd,
            ),
        ],
        archive: Seq::empty(),
        use_temp_position: false,
    }
}

fn plan_iso_empty(verbose: bool, image_name: &String, output: &String, cd: &String, tmp: &String) -> (p: Plan)
    ensures
        p@ == iso_empty_spec(verbose, image_name@, output@, cd@, tmp@),
{
    let vol = join_path(tmp, image_name.as_str());
    let mut make_dirs: Vec<String> = Vec::new();
    make_dirs.push(vol.clone());
    let mut a: Vec<String> = Vec::new();
    arg_lit(&mut a, "makehybrid");
    arg_lit(&mut a, "-iso");
    arg_lit(&mut a, "-joliet");
    arg_lit(&mut a, "-o");
    arg_own(&mut a, output.clone());
    if !verbose {
        arg_lit(&mut a, "-quiet");
    }
    arg_own(&mut a, vol);
    let mut steps: Vec<Cmd> = Vec::new();
    steps.push(Cmd::new_cwd("hdiutil", a, cd));
    let p = Plan {
        make_dirs,
        stage: None,
        steps,
        archive: String::new(),
        use_temp_position: false,
    };
    proof {
        assert(p@ =~~= iso_empty_spec(verbose, image_name@, output@, cd@, tmp@));
    }
    p
}

/// The single-directory Iso recipe: build a hybrid image of the directory in
/// the workspace.
pub open spec fn iso_dir_spec(dir: Seq<char>, v: bool, cd: Seq<char>, tmp: Seq<char>) -> PlanModel {
    PlanModel {
        make_dirs: seq![],
        stage: None,
        steps: seq![
            cmd_model(
                "hdiutil"@,
                seq![
                    "makehybrid"@,
                    "-iso"@,
                    "-joliet"@,
                    "-o"@,
                    join_path_spec(tmp, "image.iso"@),
                    dir,
                ] + flag_unless(v, "-quiet"@),
                cd,
            ),
        ],
        archive: join_path_spec(tmp, "image.iso"@),
        use_temp_position: true,
    }
}

fn plan_iso_dir(dir: &String, verbose: bool, cd: &String, tmp: &String) -> (p: Plan)
    ensures
        p@ == iso_dir_spec(dir@, verbose, cd@, tmp@),
{
    let archive = join_path(tmp, "image.iso");
    let mut a: Vec<String> = Vec::new();
    arg_lit(&mut a, "makehybrid");
    arg_lit(&mut a, "-iso");
    arg_lit(&mut a, "-joliet");
    arg_lit(&mut a, "-o");
    arg_own(&mut a, archive.clone());
    arg_own(&mut a, dir.clone());
    if !verbose {
        arg_lit(&mut a, "-quiet");
    }
    let mut steps: Vec<Cmd> = Vec::new();
    steps.push(Cmd::new_cwd("hdiutil", a, cd));
    let p = Plan {
        make_dirs: Vec::new(),
        stage: None,
        steps,
        archive,
        use_temp_position: true,
    };
    proof {
        assert(p@ =~~= iso_dir_spec(dir@, verbose, cd@, tmp@));
    }
    p
}

/// The empty-Cpio recipe: an archive of whatever the tool reads from its
/// inherited input, created inside the workspace.
pub open spec fn cpio_empty_spec(v: bool, tmp: Seq<char>) -> PlanModel {
    PlanModel {
        make_dirs: seq![],
        stage: None,
        steps: seq![
            cmd_model(
                "cpio"@,
                seq!["--create"@, "-O"@, "archive.cpio"@] + flag_unless(v, "--quiet"@),
                tmp,
            ),
        ],
        archive: join_path_spec(tmp, "archive.cpio"@),
        use_temp_position: true,
    }
}

fn plan_cpio_empty(verbose: bool, tmp: &String) -> (p: Plan)
    ensures
        p@ == cpio_empty_spec(verbose, tmp@),
{
    let mut a: Vec<String> = Vec::new();
    arg_lit(&mut a, "--create");
    arg_lit(&mut a, "-O");
    arg_lit(&mut a, "archive.cpio");
    if !verbose {
        arg_lit(&mut a, "--quiet");
    }
    let mut steps: Vec<Cmd> = Vec::new();
    steps.push(Cmd::new_cwd("cpio", a, tmp));
    let p = Plan {
        make_dirs: Vec::new(),
        stage: None,
        steps,
        archive: join_path(tmp, "archive.cpio"),
        use_temp_position: true,
    };
    proof {
        assert(p@ =~~= cpio_empty_spec(verbose, tmp@));
    }
    p
}

/// The one-input Cpio recipe: the entry name is piped to the tool on stdin,
/// null-terminated list style, from the input's parent directory.
pub open spec fn cpio_single_spec(
    pi0: (Seq<char>, Seq<char>),
    v: bool,
    tmp: Seq<char>,
) -> PlanModel {
    PlanModel {
        make_dirs: seq![],
        stage: None,
        steps: seq![
            CmdModel {
                stdin: Some(pi0.1),
                ..cmd_model(
                    "cpio"@,
                    seq!["--create"@, "--null"@, "-O"@, join_path_spec(tmp, "archive.cpio"@)]
                        + flag_unless(v, "--quiet"@),
                    pi0.0,
                )
            },
        ],
        archive: join_path_spec(tmp, "archive.cpio"@),
        use_temp_position: true,
    }
}

fn plan_cpio_single(pi0: &(String, String), verbose: bool, tmp: &String) -> (p: Plan)
    ensures
        p@ == cpio_single_spec(pi0.deep_view(), verbose, tmp@),
{
    let archive = join_path(tmp, "archive.cpio");
    let mut a: Vec<String> = Vec::new();
    arg_lit(&mut a, "--create");
    arg_lit(&mut a, "--null");
    arg_lit(&mut a, "-O");
    arg_own(&mut a, archive.clone());
    if !verbose {
        arg_lit(&mut a, "--quiet");
    }
    let mut steps: Vec<Cmd> = Vec::new();
    steps.push(Cmd::new_cwd_stdin("cpio", a, &pi0.0, pi0.1.clone()));
    let p = Plan {
        make_dirs: Vec::new(),
        stage: None,
        steps,
        archive,
        use_temp_position: true,
    };
    proof {
        assert(p@ =~~= cpio_single_spec(pi0.deep_view(), verbose, tmp@));
    }
    p
}

/// The inputs joined into one null-separated list, as the record archiver
/// reads it from stdin.
pub open spec fn join_nul_spec(items: Seq<Seq<char>>) -> Seq<char>
    decreases items.len(),
{
    if items.len() == 0 {
        seq![]
    } else if items.len() == 1 {
        items[0]
    } else {
        join_nul_spec(items.drop_last()) + seq!['\0'] + items.last()
    }
}

/// Joins the given paths into one null-separated string.
pub fn join_nul(items: &Vec<String>) -> (r: String)
    ensures
        r@ == join_nul_spec(items.deep_view()),
{
    let ghost im = items.deep_view();
    let mut s = String::new();
    let mut i: usize = 0;
    while i < items.len()
        invariant
            i <= items.len(),
            im == items.deep_view(),
            s@ == join_nul_spec(im.subrange(0, i as int)),
        decreases items.len() - i,
    {
        if i > 0 {
            s.append("\0");
        }
        s.append(items[i].as_str());
        proof {
            reveal_strlit("\0");
            assert("\0"@ =~= seq!['\0']);
            assert(im.subrange(0, (i + 1) as int).drop_last() =~= im.subrange(0, i as int));
            assert(im.subrange(0, (i + 1) as int).last() == im[i as int]);
            if i == 0 {
                assert(s@ =~= join_nul_spec(im.subrange(0, 1)));
            } else {
                assert(s@ =~= join_nul_spec(im.subrange(0, (i + 1) as int)));
            }
        }
        i = i + 1;
    }
    proof {
        assert(im.subrange(0, im.len() as int) =~= im);
    }
    s
}

/// The several-input Cpio recipe: the input paths, null-separated, are piped
/// to the tool from the process current directory, so arbitrary file name
/// characters survive.
pub open spec fn cpio_multi_spec(
    input: Seq<Seq<char>>,
    v: bool,
    cd: Seq<char>,
    tmp: Seq<char>,
) -> PlanModel {
    PlanModel {
        make_dirs: seq![],
        stage: None,
        steps: seq![
            CmdModel {
                stdin: Some(join_nul_spec(input)),
                ..cmd_model(
                    "cpio"@,
                    seq!["--create"@, "--null"@, "-O"@, join_path_spec(tmp, "archive.cpio"@)]
                        + flag_unless(v, "--quiet"@),
                    cd,
                )
            },
        ],
        archive: join_path_spec(tmp, "archive.cpio"@),
        use_temp_position: true,
    }
}

fn plan_cpio_multi(input: &Vec<String>, verbose: bool, cd: &String, tmp: &String) -> (p: Plan)
    ensures
        p@ == cpio_multi_spec(input.deep_view(), verbose, cd@, tmp@),
{
    let archive = join_path(tmp, "archive.cpio");
    let text = join_nul(input);
    let mut a: Vec<String> = Vec::new();
    arg_lit(&mut a, "--create");
    arg_lit(&mut a, "--null");
    arg_lit(&mut a, "-O");
    arg_own(&mut a, archive.clone());
    if !verbose {
        arg_lit(&mut a, "--quiet");
    }
    let mut steps: Vec<Cmd> = Vec::new();
    steps.push(Cmd::new_cwd_stdin("cpio", a, cd, text));
    let p = Plan {
        make_dirs: Vec::new(),
        stage: None,
        steps,
        archive,
        use_temp_position: true,
    };
    proof {
        assert(p@ =~~= cpio_multi_spec(input.deep_view(), verbose, cd@, tmp@));
    }
    p
}

/// The program and base arguments that compress one staged file with the
/// codec at the mapped rate; the staged file's name is appended after them.
pub open spec fn codec_file_cmd(at: ArcType, r: u8, dst_name: Seq<char>) -> (Seq<char>, Seq<
    Seq<char>,
>) {
    match at {
        ArcType::Compress => ("compress"@, seq!["-f"@]),
        ArcType::Gzip => ("gzip"@, seq!["-f"@, "-k"@, dash(r)]),
        ArcType::Bzip2 => ("bzip2"@, seq!["-z"@, "-f"@, "-k"@, dash(r)]),
        ArcType::Xz => ("xz"@, seq!["-z"@, "-f"@, "-k"@, dash(r)]),
        ArcType::Lzip => ("lzip"@, seq!["-k"@, dash(r)]),
        ArcType::Lzma => ("lzma"@, seq!["-z"@, "-f"@, "-k"@, dash(r)]),
        ArcType::Lz4 => ("lz4"@, seq!["-z"@, "-q"@, dash(r)]),
        ArcType::Lzop => ("lzop"@, seq![dash(r)]),
        ArcType::Lrzip => ("lrzip"@, seq!["-q"@, "-L"@, dec_u8(r)]),
        ArcType::Rzip => ("rzip"@, seq!["-k"@, dash(r)]),
        ArcType::Zstd => ("zstd"@, seq!["-z"@, "-q"@, dash(r)]),
        ArcType::Brotli => ("brotli"@, seq!["-q"@, dec_u8(r)]),
        ArcType::Lzfse => ("aa"@, seq!["archive"@, "-o"@, dst_name, "-i"@]),
        _ => (""@, seq![]),
    }
}

fn codec_file_args(at: &ArcType, rate: u8, dst_name: &String) -> (r: (String, Vec<String>))
    requires
        is_codec(*at),
        rate < 100,
    ensures
        r.0@ == codec_file_cmd(*at, rate, dst_name@).0,
        r.1.deep_view() == codec_file_cmd(*at, rate, dst_name@).1,
{
    match at {
        ArcType::Compress => {
            let mut a: Vec<String> = Vec::new();
            arg_lit(&mut a, "-f");
            proof {
                assert(a.deep_view() =~= codec_file_cmd(*at, rate, dst_name@).1);
            }
            (String::from_str("compress"), a)
        },
        ArcType::Gzip => {
            let mut a: Vec<String> = Vec::new();
            arg_lit(&mut a, "-f");
            arg_lit(&mut a, "-k");
            arg_own(&mut a, pre_num("-", rate));
            proof {
                assert(a.deep_view() =~= codec_file_cmd(*at, rate, dst_name@).1);
            }
            (String::from_str("gzip"), a)
        },
        ArcType::Bzip2 => {
            let mut a: Vec<String> = Vec::new();
            arg_lit(&mut a, "-z");
            arg_lit(&mut a, "-f");
            arg_lit(&mut a, "-k");
            arg_own(&mut a, pre_num("-", rate));
            proof {
                assert(a.deep_view() =~= codec_file_cmd(*at, rate, dst_name@).1);
            }
            (String::from_str("bzip2"), a)
        },
        ArcType::Xz => {
            let mut a: Vec<String> = Vec::new();
            arg_lit(&mut a, "-z");
            arg_lit(&mut a, "-f");
            arg_lit(&mut a, "-k");
            arg_own(&mut a, pre_num("-", rate));
            proof {
                assert(a.deep_view() =~= codec_file_cmd(*at, rate, dst_name@).1);
            }
            (String::from_str("xz"), a)
        },
        ArcType::Lzip => {
            let mut a: Vec<String> = Vec::new();
            arg_lit(&mut a, "-k");
            arg_own(&mut a, pre_num("-", rate));
            proof {
                assert(a.deep_view() =~= codec_file_cmd(*at, rate, dst_name@).1);
            }
            (String::from_str("lzip"), a)
        },
        ArcType::Lzma => {
            let mut a: Vec<String> = Vec::new();
            arg_lit(&mut a, "-z");
            arg_lit(&mut a, "-f");
            arg_lit(&mut a, "-k");
            arg_own(&mut a, pre_num("-", rate));
            proof {
                assert(a.deep_view() =~= codec_file_cmd(*at, rate, dst_name@).1);
            }
            (String::from_str("lzma"), a)
        },
        ArcType::Lz4 => {
            let mut a: Vec<String> = Vec::new();
            arg_lit(&mut a, "-z");
            arg_lit(&mut a, "-q");
            arg_own(&mut a, pre_num("-", rate));
            proof {
                assert(a.deep_view() =~= codec_file_cmd(*at, rate, dst_name@).1);
            }
            (String::from_str("lz4"), a)
        },
        ArcType::Lzop => {
            let mut a: Vec<String> = Vec::new();
            arg_own(&mut a, pre_num("-", rate));
            proof {
                assert(a.deep_view() =~= codec_file_cmd(*at, rate, dst_name@).1);
            }
            (String::from_str("lzop"), a)
        },
        ArcType::Lrzip => {
            let mut a: Vec<String> = Vec::new();
            arg_lit(&mut a, "-q");
            arg_lit(&mut a, "-L");
            arg_own(&mut a, u8_string(rate));
            proof {
                assert(a.deep_view() =~= codec_file_cmd(*at, rate, dst_name@).1);
            }
            (String::from_str("lrzip"), a)
        },
        ArcType::Rzip => {
            let mut a: Vec<String> = Vec::new();
            arg_lit(&mut a, "-k");
            arg_own(&mut a, pre_num("-", rate));
            proof {
                assert(a.deep_view() =~= codec_file_cmd(*at, rate, dst_name@).1);
            }
            (String::from_str("rzip"), a)
        },
        ArcType::Zstd => {
            let mut a: Vec<String> = Vec::new();
            arg_lit(&mut a, "-z");
            arg_lit(&mut a, "-q");
            arg_own(&mut a, pre_num("-", rate));
            proof {
                assert(a.deep_view() =~= codec_file_cmd(*at, rate, dst_name@).1);
            }
            (String::from_str("zstd"), a)
        },
        ArcType::Brotli => {
            let mut a: Vec<String> = Vec::new();
            arg_lit(&mut a, "-q");
            arg_own(&mut a, u8_string(rate));
            proof {
                assert(a.deep_view() =~= codec_file_cmd(*at, rate, dst_name@).1);
            }
            (String::from_str("brotli"), a)
        },
        ArcType::Lzfse => {
            let mut a: Vec<String> = Vec::new();
            arg_lit(&mut a, "archive");
            arg_lit(&mut a, "-o");
            arg_own(&mut a, dst_name.clone());
            arg_lit(&mut a, "-i");
            proof {
                assert(a.deep_view() =~= codec_file_cmd(*at, rate, dst_name@).1);
            }
            (String::from_str("aa"), a)
        },
        _ => vstd::pervasive::unreached(),
    }
}

/// The program and base arguments that compress the produced tar file with
/// the codec at the mapped rate; `archive.tar` is appended after them.
pub open spec fn codec_tar_cmd(at: ArcType, r: u8) -> (Seq<char>, Seq<Seq<char>>) {
    match at {
        ArcType::Compress => ("compress"@, seq!["-f"@]),
        ArcType::Gzip => ("gzip"@, seq![dash(r)]),
        ArcType::Bzip2 => ("bzip2"@, seq!["-z"@, dash(r)]),
        ArcType::Xz => ("xz"@, seq!["-z"@, dash(r)]),
        ArcType::Lzip => ("lzip"@, seq![dash(r)]),
        ArcType::Lzma => ("lzma"@, seq!["-z"@, dash(r)]),
        ArcType::Lz4 => ("lz4"@, seq!["-z"@, "-q"@, "--rm"@, dash(r)]),
        ArcType::Lzop => ("lzop"@, seq!["-U"@, dash(r)]),
        ArcType::Lrzip => ("lrzip"@, seq!["-q"@, "-D"@, "-L"@, dec_u8(r)]),
        ArcType::Rzip => ("rzip"@, seq!["-U"@, dash(r)]),
        ArcType::Zstd => ("zstd"@, seq!["-z"@, "-q"@, "--rm"@, dash(r)]),
        ArcType::Brotli => ("brotli"@, seq!["--rm"@, "-q"@, dec_u8(r)]),
        ArcType::Lzfse => ("aa"@, seq!["archive"@, "-o"@, "archive.tar.lzfse"@, "-i"@]),
        _ => (""@, seq![]),
    }
}

fn codec_tar_args(at: &ArcType, rate: u8) -> (r: (String, Vec<String>))
    requires
        is_codec(*at),
        rate < 100,
    ensures
        r.0@ == codec_tar_cmd(*at, rate).0,
        r.1.deep_view() == codec_tar_cmd(*at, rate).1,
{
    match at {
        ArcType::Compress => {
            let mut a: Vec<String> = Vec::new();
            arg_lit(&mut a, "-f");
            proof {
                assert(a.deep_view() =~= codec_tar_cmd(*at, rate).1);
            }
            (String::from_str("compress"), a)
        },
        ArcType::Gzip => {
            let mut a: Vec<String> = Vec::new();
            arg_own(&mut a, pre_num("-", rate));
            proof {
                assert(a.deep_view() =~= codec_tar_cmd(*at, rate).1);
            }
            (String::from_str("gzip"), a)
        },
        ArcType::Bzip2 => {
            let mut a: Vec<String> = Vec::new();
            arg_lit(&mut a, "-z");
            arg_own(&mut a, pre_num("-", rate));
            proof {
                assert(a.deep_view() =~= codec_tar_cmd(*at, rate).1);
            }
            (String::from_str("bzip2"), a)
        },
        ArcType::Xz => {
            let mut a: Vec<String> = Vec::new();
            arg_lit(&mut a, "-z");
            arg_own(&mut a, pre_num("-", rate));
            proof {
                assert(a.deep_view() =~= codec_tar_cmd(*at, rate).1);
            }
            (String::from_str("xz"), a)
        },
        ArcType::Lzip => {
            let mut a: Vec<String> = Vec::new();
            arg_own(&mut a, pre_num("-", rate));
            proof {
                assert(a.deep_view() =~= codec_tar_cmd(*at, rate).1);
            }
            (String::from_str("lzip"), a)
        },
        ArcType::Lzma => {
            let mut a: Vec<String> = Vec::new();
            arg_lit(&mut a, "-z");
            arg_own(&mut a, pre_num("-", rate));
            proof {
                assert(a.deep_view() =~= codec_tar_cmd(*at, rate).1);
            }
            (String::from_str("lzma"), a)
        },
        ArcType::Lz4 => {
            let mut a: Vec<String> = Vec::new();
            arg_lit(&mut a, "-z");
            arg_lit(&mut a, "-q");
            arg_lit(&mut a, "--rm");
            arg_own(&mut a, pre_num("-", rate));
            proof {
                assert(a.deep_view() =~= codec_tar_cmd(*at, rate).1);
            }
            (String::from_str("lz4"), a)
        },
        ArcType::Lzop => {
            let mut a: Vec<String> = Vec::new();
            arg_lit(&mut a, "-U");
            arg_own(&mut a, pre_num("-", rate));
            proof {
                assert(a.deep_view() =~= codec_tar_cmd(*at, rate).1);
            }
            (String::from_str("lzop"), a)
        },
        ArcType::Lrzip => {
            let mut a: Vec<String> = Vec::new();
            arg_lit(&mut a, "-q");
            arg_lit(&mut a, "-D");
            arg_lit(&mut a, "-L");
            arg_own(&mut a, u8_string(rate));
            proof {
                assert(a.deep_view() =~= codec_tar_cmd(*at, rate).1);
            }
            (String::from_str("lrzip"), a)
        },
        ArcType::Rzip => {
            let mut a: Vec<String> = Vec::new();
            arg_lit(&mut a, "-U");
            arg_own(&mut a, pre_num("-", rate));
            proof {
                assert(a.deep_view() =~= codec_tar_cmd(*at, rate).1);
            }
            (String::from_str("rzip"), a)
        },
        ArcType::Zstd => {
            let mut a: Vec<String> = Vec::new();
            arg_lit(&mut a, "-z");
            arg_lit(&mut a, "-q");
            arg_lit(&mut a, "--rm");
            arg_own(&mut a, pre_num("-", rate));
            proof {
                assert(a.deep_view() =~= codec_tar_cmd(*at, rate).1);
            }
            (String::from_str("zstd"), a)
        },
        ArcType::Brotli => {
            let mut a: Vec<String> = Vec::new();
            arg_lit(&mut a, "--rm");
            arg_lit(&mut a, "-q");
            arg_own(&mut a, u8_string(rate));
            proof {
                assert(a.deep_view() =~= codec_tar_cmd(*at, rate).1);
            }
            (String::from_str("brotli"), a)
        },
        ArcType::Lzfse => {
            let mut a: Vec<String> = Vec::new();
            arg_lit(&mut a, "archive");
            arg_lit(&mut a, "-o");
            arg_lit(&mut a, "archive.tar.lzfse");
            arg_lit(&mut a, "-i");
            proof {
                assert(a.deep_view() =~= codec_tar_cmd(*at, rate).1);
            }
            (String::from_str("aa"), a)
        },
        _ => vstd::pervasive::unreached(),
    }
}

/// The one tar step of an empty archive: archive an empty file list.
pub open spec fn tar_empty_steps_spec(tmp: Seq<char>) -> Seq<CmdModel> {
    seq![
        cmd_model("bsdtar"@, seq!["-c"@, "-f"@, "archive.tar"@, "-T"@, "/dev/null"@], tmp),
    ]
}

/// The tar steps over real inputs: the first creates the archive, the rest
/// append to it, each from its input's working directory, with platform
/// metadata-fork files suppressed.
pub open spec fn tar_steps_spec(pi: Seq<(Seq<char>, Seq<char>)>, tmp: Seq<char>) -> Seq<CmdModel> {
    Seq::new(
        pi.len(),
        |i: int| CmdModel {
            env: seq![("COPYFILE_DISABLE"@, "1"@)],
            ..cmd_model(
                "bsdtar"@,
                seq![
                    if i == 0 {
                        "-c"@
                    } else {
                        "-r"@
                    },
                    "-f"@,
                    join_path_spec(tmp, "archive.tar"@),
                    pi[i].1,
                ],
                pi[i].0,
            )
        },
    )
}

/// Wraps tar steps into a whole plan, appending the codec step over the
/// produced tar file unless the format is plain Tar.
pub open spec fn finish_tar_spec(steps0: Seq<CmdModel>, at: ArcType, r: u8, tmp: Seq<char>) -> PlanModel {
    if at == ArcType::Tar {
        PlanModel {
            make_dirs: seq![],
            stage: None,
            steps: steps0,
            archive: join_path_spec(tmp, "archive.tar"@),
            use_temp_position: true,
        }
    } else {
        let pa = codec_tar_cmd(at, r);
        PlanModel {
            make_dirs: seq![],
            stage: None,
            steps: steps0.push(cmd_model(pa.0, pa.1.push("archive.tar"@), tmp)),
            archive: join_path_spec(tmp, "archive.tar."@ + compress_ext_spec(at)),
            use_temp_position: true,
        }
    }
}

/// The plan of the Tar container and of every pure-compression codec: a
/// single real file is staged into the workspace and compressed on its own;
/// anything else is first rolled into a tar archive, then compressed unless
/// the format is plain Tar.
pub open spec fn tar_or_compress_spec(
    shape: CreateType,
    at: ArcType,
    input: Seq<Seq<char>>,
    keep_path: bool,
    r: u8,
    cd: Seq<char>,
    tmp: Seq<char>,
) -> Result<PlanModel, ArcError> {
    if at != ArcType::Tar && shape == CreateType::SingleFile {
        match get_pi_spec(input, keep_path, cd) {
            Err(e) => Err(e),
            Ok(pi) => {
                let name = pi[0].1;
                let dst = name + "."@ + compress_ext_spec(at);
                let pa = codec_file_cmd(at, r, dst);
                Ok(
                    PlanModel {
                        make_dirs: seq![],
                        stage: Some((input[0], join_path_spec(tmp, name))),
                        steps: seq![cmd_model(pa.0, pa.1.push(name), tmp)],
                        archive: join_path_spec(tmp, dst),
                        use_temp_position: true,
                    },
                )
            },
        }
    } else if shape == CreateType::Empty {
        Ok(finish_tar_spec(tar_empty_steps_spec(tmp), at, r, tmp))
    } else {
        match get_pi_spec(input, keep_path, cd) {
            Err(e) => Err(e),
            Ok(pi) => Ok(finish_tar_spec(tar_steps_spec(pi, tmp), at, r, tmp)),
        }
    }
}

/// Builds the plan for the Tar container and the pure-compression codecs, as
/// [`tar_or_compress_spec`] describes.
fn tar_or_compress(
    shape: CreateType,
    at: &ArcType,
    input: &Vec<String>,
    keep_path: bool,
    rate: u8,
    cd: &String,
    tmp: &String,
) -> (r: Result<Plan, ArcError>)
    requires
        is_codec(*at) || *at == ArcType::Tar,
        rate < 100,
        shape == CreateType::SingleFile ==> input.deep_view().len() > 0,
    ensures
        plan_result_model(r) == tar_or_compress_spec(
            shape,
            *at,
            input.deep_view(),
            keep_path,
            rate,
            cd@,
            tmp@,
        ),
{
    let ghost inp = input.deep_view();
    let compress = !(*at == ArcType::Tar) && shape == CreateType::SingleFile;
    if compress {
        let pi = match get_pi(input, keep_path, cd) {
            Ok(v) => v,
            Err(e) => {
                return Err(e);
            },
        };
        let name = pi[0].1.clone();
        let ext = compress_ext(at);
        let dst = name.clone().concat(".").concat(ext.as_str());
        let pa = codec_file_args(at, rate, &dst);
        let prog = pa.0;
        let mut a = pa.1;
        arg_own(&mut a, name.clone());
        let c = Cmd::new_cwd(prog.as_str(), a, tmp);
        let mut steps: Vec<Cmd> = Vec::new();
        steps.push(c);
        let p = Plan {
            make_dirs: Vec::new(),
            stage: Some((input[0].clone(), join_path(tmp, name.as_str()))),
            steps,
            archive: join_path(tmp, dst.as_str()),
            use_temp_position: true,
        };
        proof {
            let spi = get_pi_spec(inp, keep_path, cd@).unwrap();
            assert(pi.deep_view() == spi);
            assert(pi.deep_view()[0] == (pi@[0].0@, pi@[0].1@));
            assert(name@ == spi[0].1);
            assert(inp[0] == input@[0]@);
            assert(p@ =~~= tar_or_compress_spec(
                shape,
                *at,
                inp,
                keep_path,
                rate,
                cd@,
                tmp@,
            ).unwrap());
        }
        Ok(p)
    } else {
        let tar_archive = join_path(tmp, "archive.tar");
        let mut steps: Vec<Cmd> = Vec::new();
        if shape == CreateType::Empty {
            let mut a: Vec<String> = Vec::new();
            arg_lit(&mut a, "-c");
            arg_lit(&mut a, "-f");
            arg_lit(&mut a, "archive.tar");
            arg_lit(&mut a, "-T");
            arg_lit(&mut a, "/dev/null");
            proof {
                assert(a.deep_view() =~= seq!["-c"@, "-f"@, "archive.tar"@, "-T"@, "/dev/null"@]);
            }
            steps.push(Cmd::new_cwd("bsdtar", a, tmp));
            proof {
                assert(steps_model(steps@) =~~= tar_empty_steps_spec(tmp@));
            }
        } else {
            let pi = match get_pi(input, keep_path, cd) {
                Ok(v) => v,
                Err(e) => {
                    return Err(e);
                },
            };
            let ghost pim = pi.deep_view();
            let mut i: usize = 0;
            while i < pi.len()
                invariant
                    i <= pi.len(),
                    pim == pi.deep_view(),
                    tar_archive@ == join_path_spec(tmp@, "archive.tar"@),
                    steps_model(steps@) == tar_steps_spec(pim, tmp@).subrange(0, i as int),
                decreases pi.len() - i,
            {
                let mut a: Vec<String> = Vec::new();
                if i == 0 {
                    arg_lit(&mut a, "-c");
                } else {
                    arg_lit(&mut a, "-r");
                }
                arg_lit(&mut a, "-f");
                arg_own(&mut a, tar_archive.clone());
                arg_own(&mut a, pi[i].1.clone());
                let mut env: Vec<(String, String)> = Vec::new();
                env.push((String::from_str("COPYFILE_DISABLE"), String::from_str("1")));
                proof {
                    assert(env.deep_view() =~= seq![("COPYFILE_DISABLE"@, "1"@)]);
                }
                let c = Cmd::new_cwd_env("bsdtar", a, &pi[i].0, env);
                proof {
                    assert(pim[i as int] == (pi@[i as int].0@, pi@[i as int].1@));
                    assert(c@ =~~= tar_steps_spec(pim, tmp@)[i as int]);
                }
                let ghost prev = steps@;
                steps.push(c);
                proof {
                    lemma_steps_model_push(steps@, prev, c);
                    assert(tar_steps_spec(pim, tmp@).subrange(0, (i + 1) as int)
                        =~= tar_steps_spec(pim, tmp@).subrange(0, i as int).push(
                            tar_steps_spec(pim, tmp@)[i as int],
                        ));
                }
                i = i + 1;
            }
            proof {
                assert(tar_steps_spec(pim, tmp@).subrange(0, pim.len() as int) =~= tar_steps_spec(
                    pim,
                    tmp@,
                ));
            }
        }
        if *at == ArcType::Tar {
            let p = Plan {
                make_dirs: Vec::new(),
                stage: None,
                steps,
                archive: tar_archive,
                use_temp_position: true,
            };
            proof {
                assert(p@ =~~= tar_or_compress_spec(
                    shape,
                    *at,
                    inp,
                    keep_path,
                    rate,
                    cd@,
                    tmp@,
                ).unwrap());
            }
            Ok(p)
        } else {
            let pa = codec_tar_args(at, rate);
            let prog = pa.0;
            let mut a = pa.1;
            arg_lit(&mut a, "archive.tar");
            let c = Cmd::new_cwd(prog.as_str(), a, tmp);
            let ghost prev = steps@;
            steps.push(c);
            let ext = compress_ext(at);
            let aname = String::from_str("archive.tar.").concat(ext.as_str());
            let p = Plan {
                make_dirs: Vec::new(),
                stage: None,
                steps,
                archive: join_path(tmp, aname.as_str()),
                use_temp_position: true,
            };
            proof {
                lemma_steps_model_push(p.steps@, prev, c);
                assert(p@ =~~= tar_or_compress_spec(
                    shape,
                    *at,
                    inp,
                    keep_path,
                    rate,
                    cd@,
                    tmp@,
                ).unwrap());
            }
            Ok(p)
        }
    }
}

/// Some input path was probed as missing.
pub open spec fn has_missing(kinds: Seq<PathKind>) -> bool
    decreases kinds.len(),
{
    if kinds.len() == 0 {
        false
    } else {
        kinds.last() == PathKind::Missing || has_missing(kinds.drop_last())
    }
}

/// A missing input anywhere makes the whole probe missing.
proof fn lemma_has_missing(kinds: Seq<PathKind>, i: int)
    requires
        0 <= i < kinds.len(),
        kinds[i] == PathKind::Missing,
    ensures
        has_missing(kinds),
    decreases kinds.len(),
{
    if i == kinds.len() - 1 {
    } else {
        assert(kinds.drop_last()[i] == kinds[i]);
        lemma_has_missing(kinds.drop_last(), i);
    }
}

/// The recipe table: which plan each (input shape, format) pair gets, and
/// which pairs are refused.
pub open spec fn create_dispatch_spec(
    d: CreateModel,
    at: ArcType,
    r: u8,
    shape: CreateType,
    cd: Seq<char>,
    tmp: Seq<char>,
) -> Result<PlanModel, ArcError> {
    match (shape, at) {
        (CreateType::Empty, ArcType::Zip) => Ok(zip_empty_spec(d.verbose, tmp)),
        (_, ArcType::Zip) => match get_pi_spec(d.input, d.keep_path, cd) {
            Ok(pi) => Ok(zip_any_spec(pi, d.verbose, r, tmp)),
            Err(e) => Err(e),
        },
        (CreateType::Empty, ArcType::SevenZ) => Ok(sevenz_empty_spec(d.verbose, tmp)),
        (_, ArcType::SevenZ) => match get_pi_spec(d.input, d.keep_path, cd) {
            Ok(pi) => Ok(sevenz_any_spec(pi, d.verbose, r, tmp)),
            Err(e) => Err(e),
        },
        (CreateType::Empty, ArcType::Rar) => Err(ArcError::UnsupportedCombination),
        (_, ArcType::Rar) => match get_pi_spec(d.input, d.keep_path, cd) {
            Ok(pi) => Ok(rar_any_spec(pi, d.verbose, r, tmp)),
            Err(e) => Err(e),
        },
        (CreateType::Empty, ArcType::Aar) => Ok(aar_empty_spec(d.verbose, tmp)),
        (CreateType::SingleDir, ArcType::Aar) => Ok(aar_dir_spec(d.input[0], d.verbose, cd, tmp)),
        (_, ArcType::Aar) => Ok(aar_misc_spec(d.input, d.verbose, cd, tmp)),
        (CreateType::Empty, ArcType::Wim) => Ok(wim_empty_spec(tmp)),
        (CreateType::SingleDir, ArcType::Wim) => Ok(wim_dir_spec(d.input[0], cd, tmp)),
        (CreateType::Empty, ArcType::Dmg) => Ok(
            dmg_empty_spec(d.verbose, d.image_name, d.output, cd, tmp),
        ),
        (CreateType::SingleDir, ArcType::Dmg) => Ok(dmg_dir_spec(d.input[0], d.verbose, cd, tmp)),
        (CreateType::Empty, ArcType::Iso) => Ok(
            iso_empty_spec(d.verbose, d.image_name, d.output, cd, tmp),
        ),
        (CreateType::SingleDir, ArcType::Iso) => Ok(iso_dir_spec(d.input[0], d.verbose, cd, tmp)),
        (CreateType::Empty, ArcType::Lha) => Ok(lha_empty_spec(d.verbose, tmp)),
        (_, ArcType::Lha) => match get_pi_spec(d.input, d.keep_path, cd) {
            Ok(pi) => Ok(lha_any_spec(pi, d.verbose, tmp)),
            Err(e) => Err(e),
        },
        (CreateType::Empty, ArcType::Zpaq) => Err(ArcError::UnsupportedCombination),
        (_, ArcType::Zpaq) => match get_pi_spec(d.input, d.keep_path, cd) {
            Ok(pi) => Ok(zpaq_any_spec(pi, tmp)),
            Err(e) => Err(e),
        },
        (_, ArcType::Wim) | (_, ArcType::Dmg) | (_, ArcType::Iso) => Err(
            ArcError::UnsupportedCombination,
        ),
        (CreateType::Empty, ArcType::Cpio) => Ok(cpio_empty_spec(d.verbose, tmp)),
        (CreateType::SingleFile, ArcType::Cpio) | (CreateType::SingleDir, ArcType::Cpio) => match
            get_pi_spec(d.input, d.keep_path, cd) {
            Ok(pi) => Ok(cpio_single_spec(pi[0], d.verbose, tmp)),
            Err(e) => Err(e),
        },
        (CreateType::Multiple, ArcType::Cpio) => Ok(
            cpio_multi_spec(d.input, d.verbose, cd, tmp),
        ),
        (s, a) => tar_or_compress_spec(s, a, d.input, d.keep_path, r, cd, tmp),
    }
}

/// Everything the create operation decides, given the request, the probed
/// kind of each input, whether the destination's parent directory exists,
/// the process current directory and the workspace path: the checks in
/// order (missing input, destination, rate), then the recipe table.
pub open spec fn create_spec(
    d: CreateModel,
    kinds: Seq<PathKind>,
    parent_ok: bool,
    cd: Seq<char>,
    tmp: Seq<char>,
) -> Result<PlanModel, ArcError> {
    if has_missing(kinds) {
        Err(ArcError::InputNotFound)
    } else if !parent_ok {
        Err(ArcError::OutputPathInvalid)
    } else if d.rate > 9 {
        Err(ArcError::InvalidRate)
    } else {
        let at = resolved_create_type(d);
        create_dispatch_spec(d, at, rate_map(at, d.rate), shape_of(kinds), cd, tmp)
    }
}

/// Plans the whole create operation, as [`create_spec`] describes: it
/// refuses a missing input, a missing destination directory and a rate
/// above 9, resolves the format, maps the rate, classifies the input shape
/// and selects the recipe.  No external process is involved: an unsupported
/// pairing such as an empty Rar or Zpaq archive is refused before anything
/// would run.
#[verifier::rlimit(100)]
#[verifier::spinoff_prover]
pub fn create(
    d: &CreateData,
    kinds: &Vec<PathKind>,
    output_parent_ok: bool,
    cd: &String,
    tmp: &String,
) -> (r: Result<Plan, ArcError>)
    requires
        kinds@.len() == d.input@.len(),
    ensures
        plan_result_model(r) == create_spec(d@, kinds@, output_parent_ok, cd@, tmp@),
{
    let ghost km = kinds@;
    let mut i: usize = 0;
    while i < kinds.len()
        invariant
            i <= kinds.len(),
            km == kinds@,
            !has_missing(km.subrange(0, i as int)),
        decreases kinds.len() - i,
    {
        if kinds[i] == PathKind::Missing {
            proof {
                lemma_has_missing(km, i as int);
            }
            return Err(ArcError::InputNotFound);
        }
        proof {
            assert(km.subrange(0, (i + 1) as int).drop_last() =~= km.subrange(0, i as int));
            assert(km.subrange(0, (i + 1) as int).last() == km[i as int]);
        }
        i = i + 1;
    }
    proof {
        assert(km.subrange(0, km.len() as int) =~= km);
    }
    if !output_parent_ok {
        return Err(ArcError::OutputPathInvalid);
    }
    let at = match d.arc_type {
        Some(t) => t,
        None => match guess_type(&d.output, true) {
            Some(t) => t,
            None => ArcType::Zip,
        },
    };
    proof {
        assert(at == resolved_create_type(d@));
    }
    let rr = match rate_conversion(d.rate, &at) {
        Ok(x) => x,
        Err(e) => {
            return Err(e);
        },
    };
    proof {
        assert(rr == rate_map(at, d@.rate));
        assert(rr < 100);
    }
    let shape = classify_inputs(kinds);
    match (shape, at) {
        (CreateType::Empty, ArcType::Zip) => Ok(plan_zip_empty(d.verbose, tmp)),
        (_, ArcType::Zip) => match get_pi(&d.input, d.keep_path, cd) {
            Ok(pi) => Ok(plan_zip(&pi, d.verbose, rr, tmp)),
            Err(e) => Err(e),
        },
        (CreateType::Empty, ArcType::SevenZ) => Ok(plan_sevenz_empty(d.verbose, tmp)),
        (_, ArcType::SevenZ) => match get_pi(&d.input, d.keep_path, cd) {
            Ok(pi) => Ok(plan_sevenz(&pi, d.verbose, rr, tmp)),
            Err(e) => Err(e),
        },
        (CreateType::Empty, ArcType::Rar) => Err(ArcError::UnsupportedCombination),
        (_, ArcType::Rar) => match get_pi(&d.input, d.keep_path, cd) {
            Ok(pi) => Ok(plan_rar(&pi, d.verbose, rr, tmp)),
            Err(e) => Err(e),
        },
        (CreateType::Empty, ArcType::Aar) => Ok(plan_aar_empty(d.verbose, tmp)),
        (CreateType::SingleDir, ArcType::Aar) => {
            proof {
                assert(d@.input.len() == 1);
                assert(d@.input[0] == d.input@[0]@);
            }
            Ok(plan_aar_dir(&d.input[0], d.verbose, cd, tmp))
        },
        (_, ArcType::Aar) => Ok(plan_aar_misc(&d.input, d.verbose, cd, tmp)),
        (CreateType::Empty, ArcType::Wim) => Ok(plan_wim_empty(tmp)),
        (CreateType::SingleDir, ArcType::Wim) => {
            proof {
                assert(d@.input[0] == d.input@[0]@);
            }
            Ok(plan_wim_dir(&d.input[0], cd, tmp))
        },
        (CreateType::Empty, ArcType::Dmg) => Ok(
            plan_dmg_empty(d.verbose, &d.image_name, &d.output, cd, tmp),
        ),
        (CreateType::SingleDir, ArcType::Dmg) => {
            proof {
                assert(d@.input[0] == d.input@[0]@);
            }
            Ok(plan_dmg_dir(&d.input[0], d.verbose, cd, tmp))
        },
        (CreateType::Empty, ArcType::Iso) => Ok(
            plan_iso_empty(d.verbose, &d.image_name, &d.output, cd, tmp),
        ),
        (CreateType::SingleDir, ArcType::Iso) => {
            proof {
                assert(d@.input[0] == d.input@[0]@);
            }
            Ok(plan_iso_dir(&d.input[0], d.verbose, cd, tmp))
        },
        (CreateType::Empty, ArcType::Lha) => Ok(plan_lha_empty(d.verbose, tmp)),
        (_, ArcType::Lha) => match get_pi(&d.input, d.keep_path, cd) {
            Ok(pi) => Ok(plan_lha(&pi, d.verbose, tmp)),
            Err(e) => Err(e),
        },
        (CreateType::Empty, ArcType::Zpaq) => Err(ArcError::UnsupportedCombination),
        (_, ArcType::Zpaq) => match get_pi(&d.input, d.keep_path, cd) {
            Ok(pi) => Ok(plan_zpaq(&pi, tmp)),
            Err(e) => Err(e),
        },
        (_, ArcType::Wim) | (_, ArcType::Dmg) | (_, ArcType::Iso) => Err(
            ArcError::UnsupportedCombination,
        ),
        (CreateType::Empty, ArcType::Cpio) => Ok(plan_cpio_empty(d.verbose, tmp)),
        (CreateType::SingleFile, ArcType::Cpio) | (CreateType::SingleDir, ArcType::Cpio) => match
            get_pi(&d.input, d.keep_path, cd) {
            Ok(pi) => {
                proof {
                    assert(pi.deep_view().len() == d@.input.len());
                    assert(pi.deep_view()[0] == (pi@[0].0@, pi@[0].1@));
                }
                Ok(plan_cpio_single(&pi[0], d.verbose, tmp))
            },
            Err(e) => Err(e),
        },
        (CreateType::Multiple, ArcType::Cpio) => Ok(
            plan_cpio_multi(&d.input, d.verbose, cd, tmp),
        ),
        (s, a) => {
            proof {
                assert(is_codec(a) || a == ArcType::Tar);
            }
            tar_or_compress(s, &a, &d.input, d.keep_path, rr, cd, tmp)
        },
    }
}

/// An empty Rar or Zpaq archive is refused with UnsupportedCombination: a
/// create request with no inputs, a valid destination and a valid rate that
/// resolves to one of those formats gets no plan at all, so no external
/// process can ever be spawned for it.
pub proof fn lemma_empty_rar_zpaq_refused(
    d: CreateModel,
    kinds: Seq<PathKind>,
    cd: Seq<char>,
    tmp: Seq<char>,
)
    requires
        kinds.len() == 0,
        d.rate <= 9,
        resolved_create_type(d) == ArcType::Rar || resolved_create_type(d) == ArcType::Zpaq,
    ensures
        create_spec(d, kinds, true, cd, tmp) == Err::<PlanModel, ArcError>(
            ArcError::UnsupportedCombination,
        ),
{
    assert(!has_missing(kinds));
    assert(shape_of(kinds) == CreateType::Empty);
}

/// Archiving steps come one per input: a plan over real inputs for the Zip,
/// SevenZ, Rar, Lha, Zpaq or tar-based recipes holds exactly as many
/// archiver steps as there are inputs, so each input is added by its own
/// command.
pub proof fn lemma_one_step_per_input(
    pi: Seq<(Seq<char>, Seq<char>)>,
    v: bool,
    r: u8,
    tmp: Seq<char>,
)
    ensures
        zip_steps_spec(pi, v, r, tmp).len() == pi.len(),
        sevenz_steps_spec(pi, v, r, tmp).len() == pi.len(),
        rar_steps_spec(pi, v, r, tmp).len() == pi.len(),
        lha_steps_spec(pi, v, tmp).len() == pi.len(),
        zpaq_steps_spec(pi, tmp).len() == pi.len(),
        tar_steps_spec(pi, tmp).len() == pi.len(),
{
}

} // verus!
