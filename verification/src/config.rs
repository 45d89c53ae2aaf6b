//! Loading the configuration: resolving the two required values from the
//! command line with environment-variable fallbacks, and parsing the CCU
//! count as a 64-bit integer.

use vstd::prelude::*;
use crate::format::dec_val;
use crate::format::digits_only;
use crate::format::is_dec_digit;
use crate::format::lemma_dec_val_nonneg;
use crate::format::lemma_dec_val_prefix;
use crate::format::str_eq;
use crate::model::Config;
use crate::model::ConfigError;

verus! {

/// What a string is worth as a 64-bit integer: an optional `+` or `-`
/// followed by at least one decimal digit, rejecting anything else and any
/// value outside the type's range.
pub open spec fn parse_i64_spec(s: Seq<char>) -> Option<i64> {
    let signed = s.len() > 0 && (s[0] == '-' || s[0] == '+');
    let neg = s.len() > 0 && s[0] == '-';
    let digits = if signed {
        s.skip(1)
    } else {
        s
    };
    if digits.len() == 0 || !digits_only(digits) {
        Option::None
    } else {
        let v = if neg {
            -dec_val(digits)
        } else {
            dec_val(digits)
        };
        if -0x8000000000000000 <= v <= 0x7fffffffffffffff {
            Option::Some(v as i64)
        } else {
            Option::None
        }
    }
}

/// What one pass over the argument list yields: the values of the `--ccu`
/// and `--env` flags, in their separated (`--ccu 42`) or attached
/// (`--ccu=42`) forms, or the first error, left to right: a repeated flag,
/// a flag without a value, or an argument that is no known flag.
pub open spec fn scan_flags(
    args: Seq<Seq<char>>,
    ccu: Option<Seq<char>>,
    env: Option<Seq<char>>,
) -> Result<(Option<Seq<char>>, Option<Seq<char>>), ConfigError>
    decreases args.len(),
{
    if args.len() == 0 {
        Result::Ok((ccu, env))
    } else {
        let a = args[0];
        if a == "--ccu"@ {
            if ccu is Some {
                Result::Err(ConfigError::DuplicateFlag)
            } else if args.len() == 1 {
                Result::Err(ConfigError::MissingFlagValue)
            } else {
                scan_flags(args.skip(2), Option::Some(args[1]), env)
            }
        } else if a == "--env"@ {
            if env is Some {
                Result::Err(ConfigError::DuplicateFlag)
            } else if args.len() == 1 {
                Result::Err(ConfigError::MissingFlagValue)
            } else {
                scan_flags(args.skip(2), ccu, Option::Some(args[1]))
            }
        } else if a.len() >= 6 && a.take(6) == "--ccu="@ {
            if ccu is Some {
                Result::Err(ConfigError::DuplicateFlag)
            } else {
                scan_flags(args.skip(1), Option::Some(a.skip(6)), env)
            }
        } else if a.len() >= 6 && a.take(6) == "--env="@ {
            if env is Some {
                Result::Err(ConfigError::DuplicateFlag)
            } else {
                scan_flags(args.skip(1), ccu, Option::Some(a.skip(6)))
            }
        } else {
            Result::Err(ConfigError::UnknownArgument)
        }
    }
}

/// The configuration a command line and the two environment variables
/// resolve to, or the error reported: flags win over variables, a value
/// missing from both sources is `MissingCcu` / `MissingEnv`, and a CCU
/// value that is no 64-bit integer is `InvalidCcu`.
pub open spec fn config_outcome(
    args: Seq<Seq<char>>,
    ccu_var: Option<Seq<char>>,
    env_var: Option<Seq<char>>,
) -> Result<(int, Seq<char>), ConfigError> {
    match scan_flags(args, Option::None, Option::None) {
        Result::Err(e) => Result::Err(e),
        Result::Ok(flags) => {
            let ccu_text = if flags.0 is Some {
                flags.0
            } else {
                ccu_var
            };
            let env_text = if flags.1 is Some {
                flags.1
            } else {
                env_var
            };
            match ccu_text {
                Option::None => Result::Err(ConfigError::MissingCcu),
                Option::Some(cs) => match parse_i64_spec(cs) {
                    Option::None => Result::Err(ConfigError::InvalidCcu),
                    Option::Some(v) => match env_text {
                        Option::None => Result::Err(ConfigError::MissingEnv),
                        Option::Some(es) => Result::Ok((v as int, es)),
                    },
                },
            }
        },
    }
}

/// Parses a string as a 64-bit integer, exactly as `parse_i64_spec` says:
/// an optional sign, at least one decimal digit, nothing else, and the
/// value within range.
pub fn parse_i64(s: &str) -> (res: Option<i64>)
    ensures
        res == parse_i64_spec(s@),
{
    let n: usize = s.unicode_len();
    if n == 0 {
        return Option::None;
    }
    let c0: char = s.get_char(0);
    let neg = c0 == '-';
    let signed = c0 == '-' || c0 == '+';
    let start: usize = if signed {
        1
    } else {
        0
    };
    let ghost digits: Seq<char> = if signed {
        s@.skip(1)
    } else {
        s@
    };
    if n == start {
        return Option::None;
    }
    let limit: u64 = if neg {
        9223372036854775808
    } else {
        9223372036854775807
    };
    let mut acc: u64 = 0;
    let mut i: usize = start;
    while i < n
        invariant
            start <= i <= n,
            n == s@.len(),
            n > start,
            signed == (s@[0] == '-' || s@[0] == '+'),
            neg == (s@[0] == '-'),
            start == (if signed {
                1int
            } else {
                0int
            }),
            digits == (if signed {
                s@.skip(1)
            } else {
                s@
            }),
            digits.len() == n - start,
            limit == (if neg {
                9223372036854775808u64
            } else {
                9223372036854775807u64
            }),
            digits_only(digits.take(i - start)),
            acc as int == dec_val(digits.take(i - start)),
            acc <= limit,
        decreases n - i,
    {
        let c: char = s.get_char(i);
        let cu: u32 = c as u32;
        proof {
            assert(digits[i - start] == s@[i as int]);
        }
        if cu < 48 || cu > 57 {
            proof {
                assert(!is_dec_digit(digits[i - start]));
            }
            return Option::None;
        }
        let d: u64 = (cu - 48) as u64;
        let ghost j: int = i - start;
        proof {
            assert(digits.take(j + 1).drop_last() =~= digits.take(j));
            assert(digits.take(j + 1).last() == digits[j]);
            assert(limit - d == 10 * ((limit - d) / 10) + ((limit - d) % 10));
        }
        if acc > (limit - d) / 10 {
            proof {
                assert(dec_val(digits.take(j + 1)) == 10 * acc + d);
                assert(10 * acc + d > limit);
                if digits_only(digits) {
                    lemma_dec_val_prefix(digits, j + 1);
                    assert(dec_val(digits) > limit);
                }
            }
            return Option::None;
        }
        proof {
            assert(10 * acc <= 10 * ((limit - d) / 10));
            assert(10 * acc + d <= limit);
        }
        acc = acc * 10 + d;
        i = i + 1;
    }
    proof {
        assert(digits.take(n - start) =~= digits);
        lemma_dec_val_nonneg(digits);
    }
    if neg {
        if acc == 0 {
            Option::Some(0)
        } else {
            Option::Some(-((acc - 1) as i64) - 1)
        }
    } else {
        Option::Some(acc as i64)
    }
}

/// Resolves the configuration from the command-line arguments (without the
/// program name) and the values of the `CCU` and `ENV` variables, exactly
/// as `config_outcome` says. A flag on the command line wins over its
/// variable; both values are required, and `ccu` must be a 64-bit integer.
pub fn parse_args(args: &Vec<String>, ccu_var: Option<String>, env_var: Option<String>) -> (res:
    Result<Config, ConfigError>)
    ensures
        res matches Result::Ok(c) ==> config_outcome(
            args.deep_view(),
            ccu_var.deep_view(),
            env_var.deep_view(),
        ) == Result::<(int, Seq<char>), ConfigError>::Ok((c.ccu as int, c.env@)),
        res matches Result::Err(e) ==> config_outcome(
            args.deep_view(),
            ccu_var.deep_view(),
            env_var.deep_view(),
        ) == Result::<(int, Seq<char>), ConfigError>::Err(e),
{
    let ghost sargs: Seq<Seq<char>> = args.deep_view();
    let n: usize = args.len();
    let mut cli_ccu: Option<String> = Option::None;
    let mut cli_env: Option<String> = Option::None;
    let mut i: usize = 0;
    proof {
        assert(sargs.skip(0) =~= sargs);
    }
    while i < n
        invariant
            i <= n,
            n == args.len(),
            sargs == args.deep_view(),
            scan_flags(sargs, Option::None, Option::None) == scan_flags(
                sargs.skip(i as int),
                cli_ccu.deep_view(),
                cli_env.deep_view(),
            ),
        decreases n - i,
    {
        proof {
            assert(sargs.skip(i as int)[0] == sargs[i as int]);
            assert(sargs[i as int] == args[i as int].deep_view());
        }
        let a = &args[i];
        if str_eq(a.as_str(), "--ccu") {
            if cli_ccu.is_some() {
                return Result::Err(ConfigError::DuplicateFlag);
            }
            if i + 1 >= n {
                proof {
                    assert(sargs.skip(i as int).len() == 1);
                }
                return Result::Err(ConfigError::MissingFlagValue);
            }
            proof {
                assert(sargs.skip(i as int)[1] == sargs[i + 1]);
                assert(sargs[i + 1] == args[i + 1].deep_view());
                assert(sargs.skip(i as int).skip(2) =~= sargs.skip(i + 2));
            }
            cli_ccu = Option::Some(args[i + 1].clone());
            i = i + 2;
        } else if str_eq(a.as_str(), "--env") {
            if cli_env.is_some() {
                return Result::Err(ConfigError::DuplicateFlag);
            }
            if i + 1 >= n {
                proof {
                    assert(sargs.skip(i as int).len() == 1);
                }
                return Result::Err(ConfigError::MissingFlagValue);
            }
            proof {
                assert(sargs.skip(i as int)[1] == sargs[i + 1]);
                assert(sargs[i + 1] == args[i + 1].deep_view());
                assert(sargs.skip(i as int).skip(2) =~= sargs.skip(i + 2));
            }
            cli_env = Option::Some(args[i + 1].clone());
            i = i + 2;
        } else {
            let alen: usize = a.as_str().unicode_len();
            if alen < 6 {
                return Result::Err(ConfigError::UnknownArgument);
            }
            let head = a.as_str().substring_char(0, 6);
            proof {
                assert(head@ =~= a@.take(6));
                assert(sargs.skip(i as int).skip(1) =~= sargs.skip(i + 1));
            }
            if str_eq(head, "--ccu=") {
                if cli_ccu.is_some() {
                    return Result::Err(ConfigError::DuplicateFlag);
                }
                let tail = a.as_str().substring_char(6, alen);
                proof {
                    assert(tail@ =~= a@.skip(6));
                }
                cli_ccu = Option::Some(tail.to_owned());
                i = i + 1;
            } else if str_eq(head, "--env=") {
                if cli_env.is_some() {
                    return Result::Err(ConfigError::DuplicateFlag);
                }
                let tail = a.as_str().substring_char(6, alen);
                proof {
                    assert(tail@ =~= a@.skip(6));
                }
                cli_env = Option::Some(tail.to_owned());
                i = i + 1;
            } else {
                return Result::Err(ConfigError::UnknownArgument);
            }
        }
    }
    proof {
        assert(sargs.skip(n as int).len() == 0);
    }
    let ccu_text: Option<String> = match cli_ccu {
        Option::Some(s) => Option::Some(s),
        Option::None => ccu_var,
    };
    let env_text: Option<String> = match cli_env {
        Option::Some(s) => Option::Some(s),
        Option::None => env_var,
    };
    let cs = match ccu_text {
        Option::Some(cs) => cs,
        Option::None => {
            return Result::Err(ConfigError::MissingCcu);
        },
    };
    let v: i64 = match parse_i64(cs.as_str()) {
        Option::Some(v) => v,
        Option::None => {
            return Result::Err(ConfigError::InvalidCcu);
        },
    };
    let es = match env_text {
        Option::Some(es) => es,
        Option::None => {
            return Result::Err(ConfigError::MissingEnv);
        },
    };
    Result::Ok(Config { ccu: v, env: es })
}

} // verus!
