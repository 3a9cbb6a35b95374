//! What holds of configurations, of the dialog that makes them and of the start of a node.

use crate::config;
use crate::config::{Config, Places, SaveError, SaveReply, SaveStage, ValidationError};
use crate::gib::Gib;
use crate::path;
use crate::setup;
use crate::setup::{Setup, SetupError, SetupStage};
use crate::startup;
use crate::startup::{StartError, StartReply, StartStage, Startup};
use crate::text;
use vstd::prelude::*;
use vstd::string::*;
use vstd::utf8::*;

verus! {

/// Two dots stand next to each other in `p`.
pub open spec fn has_two_dots(p: Seq<char>) -> bool {
    exists|i: int| 0 <= i < p.len() - 1 && #[trigger] p[i] == '.' && p[i + 1] == '.'
}

/// A character that a node identifier may not have.
pub open spec fn is_foreign(c: char) -> bool {
    c != '-' && c != '_' && !text::alphanumeric(c)
}

/// A configuration is accepted exactly when its storage directory is named from the root and without
/// two dots in a row, its limit is neither zero nor over 2^20 GiB, its identifier has at most 255
/// bytes and none but letters, numbers, hyphens and underscores, and its token has at most 1024
/// bytes.
pub proof fn config_is_accepted_exactly_when(config: Config)
    ensures
        config::fault(config, config::node_id_characters(config.node_id@)) is None <==> {
            &&& config.storage_path@.len() > 0 && config.storage_path@[0] == '/'
            &&& !has_two_dots(config.storage_path@)
            &&& config.max_storage_gib.bits != 0 && config.max_storage_gib.bits != 0x8000_0000_0000_0000
            &&& !(0x4130_0000_0000_0000 < config.max_storage_gib.bits <= 0x7ff0_0000_0000_0000)
            &&& encode_utf8(config.node_id@).len() <= 255
            &&& forall|i: int| 0 <= i < config.node_id@.len() ==> !is_foreign(#[trigger] config.node_id@[i])
            &&& encode_utf8(config.auth_token@).len() <= 1024
        },
{
    config.max_storage_gib.amounts_are_ordered_by_bits();
    two_dots_are_adjacent(config.storage_path@);
    if forall|i: int| 0 <= i < config.node_id@.len() ==> !is_foreign(#[trigger] config.node_id@[i]) {
        assert forall|i: int| 0 <= i < config.node_id@.len() implies text::alphanumeric(
            #[trigger] config.node_id@[i],
        ) || config.node_id@[i] == '-' || config.node_id@[i] == '_' by {
            assert(!is_foreign(config.node_id@[i]));
        }
    }
    if config::node_id_characters(config.node_id@) {
        assert forall|i: int| 0 <= i < config.node_id@.len() implies !is_foreign(#[trigger] config.node_id@[i]) by {
            assert(text::alphanumeric(config.node_id@[i]) || config.node_id@[i] == '-' || config.node_id@[i] == '_');
        }
    }
}

proof fn two_dots_are_adjacent(p: Seq<char>)
    ensures
        has_two_dots(p) <==> text::has_adjacent(p, '.', '.'),
{
    if text::has_adjacent(p, '.', '.') {
        let i = choose|i: int| 0 <= i && i + 1 < p.len() && #[trigger] p[i] == '.' && p[i + 1] == '.';
        assert(0 <= i < p.len() - 1 && p[i] == '.' && p[i + 1] == '.');
    }
    if has_two_dots(p) {
        let i = choose|i: int| 0 <= i < p.len() - 1 && #[trigger] p[i] == '.' && p[i + 1] == '.';
        assert(0 <= i && i + 1 < p.len() && p[i] == '.' && p[i + 1] == '.');
    }
}

/// A configuration that is not accepted is told what is wrong with it.
pub proof fn fault_is_what_is_wrong(config: Config, e: ValidationError)
    requires
        config::fault(config, config::node_id_characters(config.node_id@)) == Some(e),
    ensures
        match e {
            ValidationError::PathNotAbsolute { storage_path } => storage_path@ == config.storage_path@ && !(
            storage_path@.len() > 0 && storage_path@[0] == '/'),
            ValidationError::ZeroStorage => config.max_storage_gib.bits == 0 || config.max_storage_gib.bits
                == 0x8000_0000_0000_0000,
            ValidationError::TooMuchStorage { max_storage_gib } => max_storage_gib == config.max_storage_gib
                && 0x4130_0000_0000_0000 < max_storage_gib.bits <= 0x7ff0_0000_0000_0000,
            ValidationError::PathTraversal => has_two_dots(config.storage_path@),
            ValidationError::NodeIdTooLong => encode_utf8(config.node_id@).len() > 255,
            ValidationError::NodeIdCharacters => exists|i: int|
                0 <= i < config.node_id@.len() && is_foreign(#[trigger] config.node_id@[i]),
            ValidationError::AuthTokenTooLong => encode_utf8(config.auth_token@).len() > 1024,
        },
{
    config.max_storage_gib.amounts_are_ordered_by_bits();
    two_dots_are_adjacent(config.storage_path@);
    if e is NodeIdCharacters {
        let i = choose|i: int|
            0 <= i < config.node_id@.len() && !(text::alphanumeric(#[trigger] config.node_id@[i])
                || config.node_id@[i] == '-' || config.node_id@[i] == '_');
        assert(is_foreign(config.node_id@[i]));
    }
}

/// A node can connect exactly when it has both an identifier and a token.
pub proof fn credentials_are_both(config: Config)
    ensures
        config.has_credentials() <==> config.node_id@ != Seq::<char>::empty() && config.auth_token@ != Seq::<
            char,
        >::empty(),
{
    assert(config.node_id@.len() == 0 ==> config.node_id@ =~= Seq::<char>::empty());
    assert(config.auth_token@.len() == 0 ==> config.auth_token@ =~= Seq::<char>::empty());
}

/// The default storage directory is `Project_YourCloud` in the first place that is known: the home
/// directory, the directory of the user, the working directory, or `/tmp`.
pub proof fn default_directory_is_in_the_first_known_place(places: Places)
    ensures
        places.home matches Some(home) ==> config::default_storage_path(places) == path::joined(
            home@,
            "Project_YourCloud"@,
        ),
        places.home is None ==> (places.user matches Some(user) ==> config::default_storage_path(places) == "/home/"@
            + user@ + "/Project_YourCloud"@),
        places.home is None && places.user is None ==> (places.current_dir matches Some(dir)
            ==> config::default_storage_path(places) == path::joined(dir@, "Project_YourCloud"@)),
        places.home is None && places.user is None && places.current_dir is None ==> config::default_storage_path(
            places,
        ) == "/tmp/Project_YourCloud"@,
{
    reveal_strlit("/tmp");
    reveal_strlit("Project_YourCloud");
    reveal_strlit("/tmp/Project_YourCloud");
    assert(path::joined("/tmp"@, "Project_YourCloud"@) =~= "/tmp/Project_YourCloud"@);
}

/// The configuration file is `Project_YourCloud/config.toml` in the directory for the user's
/// configuration, or in `/etc` where that is not known.
pub proof fn config_file_has_its_place(config_dir: Option<String>)
    ensures
        match config_dir {
            Some(dir) => config::config_file(config_dir) == path::joined(
                path::joined(dir@, "Project_YourCloud"@),
                "config.toml"@,
            ) && config::config_directory(config_dir) == path::joined(dir@, "Project_YourCloud"@),
            None => config::config_file(config_dir) == "/etc/Project_YourCloud/config.toml"@
                && config::config_directory(config_dir) == "/etc/Project_YourCloud"@,
        },
{
}

/// A configuration is saved exactly when its directory could be made, it could be written down, and
/// that text, as it is, could be written to its file; the first of these that fails is told.
pub proof fn config_is_saved_when_all_is_done(
    config_dir: Option<String>,
    stages: Seq<SaveStage>,
    replies: Seq<SaveReply>,
    result: Result<(), SaveError>,
)
    requires
        config::is_saving(config_dir, stages, replies),
        stages.last() == SaveStage::Finished(result),
    ensures
        1 <= replies.len() <= 3,
        replies.len() == 3 ==> replies[0] == SaveReply::Done(true) && (replies[1] matches SaveReply::Serialized(
            Some(text),
        ) && stages[2] == (SaveStage::WriteFile { contents: text })),
        match result {
            Ok(_) => replies.len() == 3 && replies[2] == SaveReply::Done(true),
            Err(SaveError::CreateDirectory) => replies.len() == 1 && replies[0] == SaveReply::Done(false),
            Err(SaveError::Serialize) => replies.len() == 2 && replies[1] == SaveReply::Serialized(None),
            Err(SaveError::Write) => replies.len() == 3 && replies[2] == SaveReply::Done(false),
        },
{
    assert(stages[0].expects(replies[0]));
    if replies.len() > 1 {
        assert(stages[1].expects(replies[1]));
    }
    if replies.len() > 2 {
        assert(stages[2].expects(replies[2]));
    }
    if replies.len() > 3 {
        assert(stages[3].expects(replies[3]));
    }
}

/// Each answer of the dialog goes to the field it was asked for, and a question that is answered with
/// nothing keeps the field as it was: so it is with every mixture of answers, of whatever length.
pub proof fn dialog_takes_what_is_answered(dialog: Seq<Setup>, answers: Seq<Seq<char>>, numbers: Seq<Option<Gib>>)
    requires
        setup::is_dialog(dialog, answers, numbers),
        answers.len() == 5,
        answers[3].len() > 0 ==> (numbers[3] matches Some(amount) && 0 < amount.bits <= 0x7ff0_0000_0000_0000),
    ensures
        dialog[5].stage is AskSave,
        dialog[5].config.node_id@ == if answers[0].len() > 0 {
            answers[0]
        } else {
            dialog[0].config.node_id@
        },
        dialog[5].config.auth_token@ == if answers[1].len() > 0 {
            answers[1]
        } else {
            dialog[0].config.auth_token@
        },
        dialog[5].config.storage_path@ == if answers[2].len() > 0 {
            answers[2]
        } else {
            dialog[0].config.storage_path@
        },
        dialog[5].config.max_storage_gib == if answers[3].len() > 0 {
            numbers[3]->0
        } else {
            dialog[0].config.max_storage_gib
        },
        dialog[5].config.ws_url@ == if answers[4].len() > 0 {
            answers[4]
        } else {
            dialog[0].config.ws_url@
        },
{
    if let Some(amount) = numbers[3] {
        amount.amounts_are_ordered_by_bits();
    }
    assert(dialog[0].asks() && dialog[1].asks() && dialog[2].asks() && dialog[3].asks() && dialog[4].asks());
}

/// An amount of storage that is not a number, or not greater than zero, ends the dialog with that
/// error and nothing saved.
pub proof fn bad_amount_ends_the_dialog(setup: Setup, answer: Seq<char>, number: Option<Gib>, next: Setup)
    requires
        setup.stage is AskMaxStorage,
        answer.len() > 0,
        setup.leads_to(answer, number, next),
    ensures
        number is None ==> next.stage == SetupStage::Finished(Err(SetupError::NotANumber)),
        number matches Some(amount) ==> !(0 < amount.bits <= 0x7ff0_0000_0000_0000) ==> next.stage
            == SetupStage::Finished(Err(SetupError::NotPositive)),
        number matches Some(amount) ==> 0 < amount.bits <= 0x7ff0_0000_0000_0000 ==> next.stage is AskWsUrl,
{
    if let Some(amount) = number {
        amount.amounts_are_ordered_by_bits();
    }
}

/// The configuration is saved exactly when the last answer, in lower case, is neither `n` nor `no`;
/// and what is saved is what was asked about.
pub proof fn config_is_saved_unless_refused(setup: Setup, answer: Seq<char>, number: Option<Gib>, next: Setup)
    requires
        setup.stage is AskSave,
        setup.leads_to(answer, number, next),
    ensures
        next.stage is Save <==> text::lowercase(answer) != "n"@ && text::lowercase(answer) != "no"@,
        !(next.stage is Save) ==> next.stage matches SetupStage::Finished(Ok(_)),
        next.config == setup.config,
{
}

/// A node starts exactly when its directory was created, its disk has at least as many bytes free as
/// the node may come to hold, and its directory was scanned; it starts with the counters of that
/// scan. What fails first is told.
pub proof fn node_starts_exactly_when_all_holds(starts: Seq<Startup>, replies: Seq<StartReply>)
    requires
        startup::is_start(starts, replies),
        starts.last().stage is Serve || starts.last().stage is Failed,
    ensures
        1 <= replies.len() <= 3,
        replies[0] is Created,
        replies.len() > 1 ==> replies[0] == StartReply::Created(true) && replies[1] is Space,
        replies.len() > 2 ==> (replies[1] matches StartReply::Space(Ok(free)) && free >= starts[0].required_bytes)
            && replies[2] is Scanned,
        match starts.last().stage {
            StartStage::Serve { state } => replies.len() == 3 && replies[2] == StartReply::Scanned(Some(state)),
            StartStage::Failed(StartError::CreateDirectory { storage_path }) => replies.len() == 1 && replies[0]
                == StartReply::Created(false) && storage_path == starts[0].storage_path,
            StartStage::Failed(StartError::NotEnoughSpace { available, required }) => replies.len() == 2
                && replies[1] == StartReply::Space(Ok(available)) && required == starts[0].required_bytes && available
                < required,
            StartStage::Failed(StartError::SpaceUnknown { error }) => replies.len() == 2 && replies[1]
                == StartReply::Space(Err(error)),
            StartStage::Failed(StartError::Scan) => replies.len() == 3 && replies[2] == StartReply::Scanned(None),
            _ => false,
        },
{
    assert(starts[0].expects(replies[0]));
    if replies.len() > 1 {
        assert(starts[1].expects(replies[1]));
    }
    if replies.len() > 2 {
        assert(starts[2].expects(replies[2]));
    }
    if replies.len() > 3 {
        assert(starts[3].expects(replies[3]));
    }
}

} // verus!
