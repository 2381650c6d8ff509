use vstd::prelude::*;

use crate::text::{spec_decimal, u32_to_decimal};

verus! {

/// The recognition options of one invocation: the language code, the
/// optional numeric modes, and free-form `key=value` configuration
/// parameters, applied in the order supplied.
#[derive(Debug, Clone)]
pub struct Args {
    pub lang: String,
    pub dpi: Option<u32>,
    pub psm: Option<u32>,
    pub oem: Option<u32>,
    pub config_variables: Vec<(String, String)>,
}

impl Args {
    /// The configuration parameters as sequences of characters.
    pub open spec fn params_view(&self) -> Seq<(Seq<char>, Seq<char>)> {
        self.config_variables@.map_values(|p: (String, String)| (p.0@, p.1@))
    }
}

/// A fully resolved invocation: the executable to spawn and its argument
/// vector, to be passed as a vector and never through a shell.
#[derive(Debug, Clone)]
pub struct CommandSpec {
    pub program: String,
    pub args: Vec<String>,
}

/// The `key=value` form of one configuration parameter.
pub open spec fn spec_config_value(key: Seq<char>, value: Seq<char>) -> Seq<char> {
    key + "="@ + value
}

/// The argument pair `-c key=value` for each configuration parameter, in order.
pub open spec fn spec_config_args(params: Seq<(Seq<char>, Seq<char>)>) -> Seq<Seq<char>>
    decreases params.len(),
{
    if params.len() == 0 {
        seq![]
    } else {
        seq!["-c"@, spec_config_value(params[0].0, params[0].1)] + spec_config_args(
            params.skip(1),
        )
    }
}

proof fn lemma_config_args_push(params: Seq<(Seq<char>, Seq<char>)>, p: (Seq<char>, Seq<char>))
    ensures
        spec_config_args(params.push(p)) == spec_config_args(params) + seq![
            "-c"@,
            spec_config_value(p.0, p.1),
        ],
    decreases params.len(),
{
    if params.len() == 0 {
        reveal_with_fuel(spec_config_args, 2);
        assert(params.push(p).skip(1) =~~= Seq::<(Seq<char>, Seq<char>)>::empty());
        assert(spec_config_args(params.push(p)) =~~= spec_config_args(params) + seq![
            "-c"@,
            spec_config_value(p.0, p.1),
        ]);
    } else {
        assert(params.push(p).skip(1) =~~= params.skip(1).push(p));
        lemma_config_args_push(params.skip(1), p);
        assert(spec_config_args(params.push(p)) =~~= spec_config_args(params) + seq![
            "-c"@,
            spec_config_value(p.0, p.1),
        ]);
    }
}

/// A flag followed by a decimal number, or nothing when the option is absent.
pub open spec fn spec_flag_option(flag: Seq<char>, v: Option<u32>) -> Seq<Seq<char>> {
    match v {
        Some(n) => seq![flag, spec_decimal(n as nat)],
        None => seq![],
    }
}

/// The full recognition argument vector: the image path first, then the
/// output-to-stdout token, the language, the optional numeric modes, and the
/// configuration parameters, in that order.
pub open spec fn spec_recognition_args(
    image_path: Seq<char>,
    lang: Seq<char>,
    dpi: Option<u32>,
    psm: Option<u32>,
    oem: Option<u32>,
    params: Seq<(Seq<char>, Seq<char>)>,
) -> Seq<Seq<char>> {
    seq![image_path, "stdout"@, "-l"@, lang] + spec_flag_option("--dpi"@, dpi) + spec_flag_option(
        "--psm"@,
        psm,
    ) + spec_flag_option("--oem"@, oem) + spec_config_args(params)
}

/// Building an argument vector is a pure function of its inputs: two builds
/// from identical inputs yield identical argument vectors.
pub proof fn lemma_recognition_args_deterministic(
    image_path1: Seq<char>,
    lang1: Seq<char>,
    dpi1: Option<u32>,
    psm1: Option<u32>,
    oem1: Option<u32>,
    params1: Seq<(Seq<char>, Seq<char>)>,
    image_path2: Seq<char>,
    lang2: Seq<char>,
    dpi2: Option<u32>,
    psm2: Option<u32>,
    oem2: Option<u32>,
    params2: Seq<(Seq<char>, Seq<char>)>,
)
    requires
        image_path1 == image_path2,
        lang1 == lang2,
        dpi1 == dpi2,
        psm1 == psm2,
        oem1 == oem2,
        params1 == params2,
    ensures
        spec_recognition_args(image_path1, lang1, dpi1, psm1, oem1, params1)
            == spec_recognition_args(image_path2, lang2, dpi2, psm2, oem2, params2),
{
}

fn push_flag_option(args: &mut Vec<String>, flag: &str, v: &Option<u32>)
    ensures
        final(args)@.map_values(|a: String| a@) == old(args)@.map_values(|a: String| a@)
            + spec_flag_option(flag@, *v),
{
    let ghost f = |a: String| a@;
    match v {
        Some(n) => {
            let fs = flag.to_owned();
            let ghost gfs = fs;
            let ghost args0 = args@;
            args.push(fs);
            proof {
                args0.lemma_push_map_commute(f, gfs);
            }
            let dec = u32_to_decimal(*n);
            let ghost gdec = dec;
            let ghost args1 = args@;
            args.push(dec);
            proof {
                args1.lemma_push_map_commute(f, gdec);
                assert(args@.map_values(f) =~= old(args)@.map_values(f) + spec_flag_option(
                    flag@,
                    *v,
                ));
            }
        },
        None => {
            proof {
                assert(args@.map_values(f) =~= old(args)@.map_values(f) + spec_flag_option(
                    flag@,
                    *v,
                ));
            }
        },
    }
}

/// Builds the recognition command for `image_path` with the given options,
/// against the executable at `exec`. Pure: no I/O, no shell escaping.
pub fn create_tesseract_command(exec: &String, image_path: &String, args: &Args) -> (c:
    CommandSpec)
    ensures
        c.program@ == exec@,
        c.args@.map_values(|a: String| a@) == spec_recognition_args(
            image_path@,
            args.lang@,
            args.dpi,
            args.psm,
            args.oem,
            args.params_view(),
        ),
{
    let ghost f = |a: String| a@;
    let mut v: Vec<String> = Vec::new();
    v.push(image_path.clone());
    v.push("stdout".to_owned());
    v.push("-l".to_owned());
    v.push(args.lang.clone());
    proof {
        assert(v@.map_values(f) =~= seq![image_path@, "stdout"@, "-l"@, args.lang@]);
    }
    push_flag_option(&mut v, "--dpi", &args.dpi);
    push_flag_option(&mut v, "--psm", &args.psm);
    push_flag_option(&mut v, "--oem", &args.oem);
    let ghost fixed = seq![image_path@, "stdout"@, "-l"@, args.lang@] + spec_flag_option(
        "--dpi"@,
        args.dpi,
    ) + spec_flag_option("--psm"@, args.psm) + spec_flag_option("--oem"@, args.oem);
    proof {
        assert(v@.map_values(f) =~= fixed);
    }
    let mut i: usize = 0;
    while i < args.config_variables.len()
        invariant
            i <= args.config_variables.len(),
            v@.map_values(|a: String| a@) == fixed + spec_config_args(args.params_view().take(
                i as int,
            )),
        decreases args.config_variables.len() - i,
    {
        let ghost v0 = v@;
        let pair = &args.config_variables[i];
        let cflag = "-c".to_owned();
        let ghost gcflag = cflag;
        v.push(cflag);
        let mut cv = pair.0.clone();
        cv.append("=");
        cv.append(pair.1.as_str());
        proof {
            v0.lemma_push_map_commute(|a: String| a@, gcflag);
        }
        let ghost v1 = v@;
        let ghost gcv = cv;
        v.push(cv);
        proof {
            v1.lemma_push_map_commute(|a: String| a@, gcv);
            assert(gcv@ =~= spec_config_value(pair.0@, pair.1@));
            lemma_config_args_push(
                args.params_view().take(i as int),
                (pair.0@, pair.1@),
            );
            assert(args.params_view().take(i as int).push((pair.0@, pair.1@))
                =~~= args.params_view().take(i + 1));
            assert(spec_config_args(args.params_view().take(i + 1)) == spec_config_args(
                args.params_view().take(i as int),
            ) + seq!["-c"@, spec_config_value(pair.0@, pair.1@)]);
            assert(v@.map_values(|a: String| a@) =~~= fixed + spec_config_args(
                args.params_view().take(i + 1),
            ));
        }
        i += 1;
    }
    proof {
        assert(args.params_view().take(args.config_variables.len() as int)
            =~~= args.params_view());
    }
    CommandSpec { program: exec.clone(), args: v }
}

/// Builds the single-flag command that asks the executable for its version.
pub fn version_command(exec: &String) -> (c: CommandSpec)
    ensures
        c.program@ == exec@,
        c.args@.map_values(|a: String| a@) == seq!["--version"@],
{
    let mut v: Vec<String> = Vec::new();
    v.push("--version".to_owned());
    proof {
        assert(v@.map_values(|a: String| a@) =~= seq!["--version"@]);
    }
    CommandSpec { program: exec.clone(), args: v }
}

/// Builds the single-flag command that asks the executable for its language list.
pub fn list_langs_command(exec: &String) -> (c: CommandSpec)
    ensures
        c.program@ == exec@,
        c.args@.map_values(|a: String| a@) == seq!["--list-langs"@],
{
    let mut v: Vec<String> = Vec::new();
    v.push("--list-langs".to_owned());
    proof {
        assert(v@.map_values(|a: String| a@) =~= seq!["--list-langs"@]);
    }
    CommandSpec { program: exec.clone(), args: v }
}

} // verus!
