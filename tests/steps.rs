use std::cell::RefCell;
use std::rc::Rc;

use stated_dialogues::controller::DialContext;
use stated_dialogues::dialogues::{ButtonPayload, CtxResult, Message, MessageId, OutgoingMessage, Select, UserId};
use stated_dialogues::record::Record;
use stated_dialogues::repositories::RespsitoriesStore;
use stated_dialogues::steps::add_record::{AddRecordDialog, NewRecord};
use stated_dialogues::steps::create_repo::{make_create_repo_keyboard, CreateRepoDialogue};
use stated_dialogues::steps::fields::{record_as_message, RECORD_DESCR_FIELD, RECORD_LOGIN_FIELD, RECORD_NAME_FIELD, RECORD_PASSWD_FIELD};
use stated_dialogues::steps::hello::{HelloDialogue, CREATE_REPO, OPEN_REPO};
use stated_dialogues::steps::open_repo::OpenRepoDialogue;
use stated_dialogues::steps::restore::RestoreDialogue;
use stated_dialogues::steps::edit_record::EditRecordDialog;
use stated_dialogues::steps::view_record::{ViewRecordDialog, REMOVE_RECORD};
use stated_dialogues::steps::view_repo::{ViewRepoDialog, ADD_RECORD, CLOSE_REPO};
use stated_dialogues::steps::{default_commands_handler, BotState, StepError, StepFactory};
use stated_dialogues::storage::{
    AddRecordError, RecordsRepository, RepositoriesFactory, RepositoryAlreadyExist, RepositoryLoadError,
    RepositoryOpenError, UpdateRecordError,
};

/// A repository in memory, shared between its clones.
#[derive(Clone, Default)]
struct MemRepo {
    records: Rc<RefCell<Vec<Record>>>,
    saves: Rc<RefCell<usize>>,
    passwd: String,
}

impl RecordsRepository for MemRepo {
    fn cancel(&mut self) -> Result<(), anyhow::Error> {
        Ok(())
    }
    fn save(&mut self) -> Result<(), anyhow::Error> {
        *self.saves.borrow_mut() += 1;
        Ok(())
    }
    fn get_records(&self) -> Result<Vec<&Record>, anyhow::Error> {
        // Leaks a snapshot: enough for tests.
        let snapshot: &'static Vec<Record> = Box::leak(Box::new(self.records.borrow().clone()));
        Ok(snapshot.iter().collect())
    }
    fn get(&mut self, record_id: &String) -> Result<Option<&Record>, anyhow::Error> {
        let found = self.records.borrow().iter().find(|r| &r.id == record_id).cloned();
        Ok(found.map(|r| &*Box::leak(Box::new(r))))
    }
    fn update(&mut self, record: Record) -> Result<(), UpdateRecordError> {
        let mut records = self.records.borrow_mut();
        match records.iter_mut().find(|r| r.id == record.id) {
            Some(r) => {
                *r = record;
                Ok(())
            }
            None => Err(UpdateRecordError::RecordDoesntExist),
        }
    }
    fn delete(&mut self, record_id: &String) -> Result<(), UpdateRecordError> {
        let mut records = self.records.borrow_mut();
        let before = records.len();
        records.retain(|r| &r.id != record_id);
        if records.len() == before {
            Err(UpdateRecordError::RecordDoesntExist)
        } else {
            Ok(())
        }
    }
    fn add_record(&mut self, record: Record) -> Result<(), AddRecordError> {
        self.records.borrow_mut().push(record);
        Ok(())
    }
    fn dump(&self) -> Result<Vec<u8>, anyhow::Error> {
        Ok(vec![self.records.borrow().len() as u8])
    }
}

/// Repositories in memory, by user.
#[derive(Clone, Default)]
struct MemFactory {
    repos: Rc<RefCell<Vec<(String, MemRepo)>>>,
}

impl RepositoriesFactory<MemRepo> for MemFactory {
    fn user_has_repository(&self, user_id: &String) -> bool {
        self.repos.borrow().iter().any(|(u, _)| u == user_id)
    }
    fn get_user_repository(&self, user_id: &String, passwd: String) -> Result<MemRepo, RepositoryOpenError> {
        match self.repos.borrow().iter().find(|(u, _)| u == user_id) {
            Some((_, repo)) if repo.passwd == passwd => Ok(repo.clone()),
            Some(_) => Err(RepositoryOpenError::WrongPassword),
            None => Err(RepositoryOpenError::DoesntExist),
        }
    }
    /// The backup at `file` is the repository of the user named by the path.
    fn load_user_repository(&self, user_id: &String, passwd: String, file: &String) -> Result<MemRepo, RepositoryLoadError> {
        let source = self.repos.borrow().iter().find(|(u, _)| u == file).map(|(_, r)| r.clone());
        match source {
            Some(repo) if repo.passwd == passwd => {
                self.repos.borrow_mut().push((user_id.clone(), repo.clone()));
                Ok(repo)
            }
            Some(_) => Err(RepositoryLoadError::WrongPassword),
            None => Err(RepositoryLoadError::UnexpectedError(anyhow::Error::msg("no such backup"))),
        }
    }
    fn initialize_user_repository(&self, user_id: &String, passwd: String) -> Result<MemRepo, RepositoryAlreadyExist> {
        if self.user_has_repository(user_id) {
            return Err(RepositoryAlreadyExist);
        }
        let repo = MemRepo { passwd, ..Default::default() };
        self.repos.borrow_mut().push((user_id.clone(), repo.clone()));
        Ok(repo)
    }
}

/// The steps of the bot over the in-memory storage.
enum Step {
    Hello(HelloDialogue<MemFactory, MemRepo>),
    OpenRepo(OpenRepoDialogue<MemFactory, MemRepo>),
    CreateRepo(CreateRepoDialogue<MemFactory, MemRepo>),
    Restore(RestoreDialogue<MemFactory, MemRepo>),
    ViewRepo(ViewRepoDialog<MemRepo>),
    AddRecord(AddRecordDialog<MemRepo>),
    ViewRecord(ViewRecordDialog<MemRepo>),
    EditRecord(EditRecordDialog<MemRepo>),
}

impl StepFactory<MemFactory, MemRepo> for Step {
    fn hello(user_id: UserId, factory: MemFactory, tmp_directory: String) -> Self {
        Step::Hello(HelloDialogue::new(user_id, factory, tmp_directory))
    }
    fn open_repo(factory: MemFactory) -> Self {
        Step::OpenRepo(OpenRepoDialogue::new(factory))
    }
    fn create_repo(factory: MemFactory) -> Self {
        Step::CreateRepo(CreateRepoDialogue::new(factory))
    }
    fn restore(user_id: UserId, factory: MemFactory, tmp_directory: String) -> Self {
        Step::Restore(RestoreDialogue::new(user_id, factory, tmp_directory))
    }
    fn view_repo(repo: MemRepo) -> Self {
        Step::ViewRepo(ViewRepoDialog::new(repo))
    }
    fn add_record(repo: MemRepo) -> Self {
        Step::AddRecord(AddRecordDialog::new(repo))
    }
    fn view_record(repo: MemRepo, record_id: String) -> Self {
        Step::ViewRecord(ViewRecordDialog::new(repo, record_id))
    }
    fn edit_record(record_id: String, repo: MemRepo) -> Self {
        Step::EditRecord(EditRecordDialog::new(record_id, repo))
    }
}

fn text(id: i32, user: Option<&str>, t: Option<&str>) -> Message {
    Message::new(MessageId(id), t.map(|s| s.to_string()), user.map(|u| UserId(u.to_string())), None)
}

fn hello(factory: &MemFactory) -> HelloDialogue<MemFactory, MemRepo> {
    HelloDialogue::new(UserId("1".to_string()), factory.clone(), "/tmp".to_string())
}

#[test]
fn test_init_no_rep() {
    let factory = MemFactory::default();
    let mut dialog = hello(&factory);
    let mut result = dialog.init::<Step>().unwrap();
    assert_eq!(result.len(), 1);

    match result.remove(0) {
        CtxResult::Buttons(message, selector) => {
            assert_eq!(message, OutgoingMessage::plain("Выберите действие".to_string()));
            assert_eq!(
                selector,
                vec![vec![(ButtonPayload(CREATE_REPO.to_string()), "Создать репозиторий".to_string())]]
            );
        }
        _ => panic!("buttons expected"),
    };
}

#[test]
fn test_init_with_rep() {
    let factory = MemFactory::default();
    let mut rep = factory.initialize_user_repository(&"1".to_string(), "123".to_string()).unwrap();
    rep.save().unwrap();

    let mut dialog = hello(&factory);
    let mut result = dialog.init::<Step>().unwrap();
    assert_eq!(result.len(), 1);

    match result.remove(0) {
        CtxResult::Buttons(message, selector) => {
            assert_eq!(message, OutgoingMessage::plain("Репозиторий".to_string()));
            assert_eq!(
                selector,
                vec![vec![(ButtonPayload(OPEN_REPO.to_string()), "Открыть репозиторий".to_string())]]
            );
        }
        _ => panic!("buttons expected"),
    };
}

#[test]
fn test_create_repo_select() {
    let factory = MemFactory::default();
    let mut dialog = hello(&factory);

    dialog.init::<Step>().unwrap();
    let mut result = dialog
        .handle_select::<Step>(Select::new(Some(MessageId(1)), Some(CREATE_REPO.to_string()), UserId("1".into())))
        .unwrap();

    match result.remove(0) {
        CtxResult::NewCtx(Step::CreateRepo(mut ctx)) => {
            ctx.init::<Step>().unwrap();
        }
        _ => panic!("hand-off to repository creation expected"),
    }
    assert!(matches!(&result[0], CtxResult::RemoveMessages(ids) if ids == &vec![MessageId(1)]));
}

#[test]
fn hello_shutdown_removes_remembered_messages() {
    let factory = MemFactory::default();
    let mut dialog = hello(&factory);
    dialog.remember_sent_messages(vec![MessageId(3), MessageId(4), MessageId(3)]);
    dialog
        .handle_select::<Step>(Select::new(Some(MessageId(4)), None, UserId("1".into())))
        .unwrap();
    let result = dialog.shutdown::<Step>().unwrap();
    assert!(matches!(&result[0], CtxResult::RemoveMessages(ids) if ids == &vec![MessageId(3)]));
    let again = dialog.shutdown::<Step>().unwrap();
    assert!(matches!(&again[0], CtxResult::RemoveMessages(ids) if ids.is_empty()));
}

#[test]
fn default_commands() {
    let reset: Vec<CtxResult<Step>> = default_commands_handler(text(5, Some("1"), Some("/reset")));
    assert!(matches!(reset[0], CtxResult::CloseCtx));
    assert!(matches!(&reset[1], CtxResult::RemoveMessages(ids) if ids == &vec![MessageId(5)]));

    let unknown: Vec<CtxResult<Step>> = default_commands_handler(text(6, Some("1"), Some("/what")));
    match &unknown[0] {
        CtxResult::Messages(ms) => assert_eq!(ms[0].text(), "Неизвестная команда \"/what\""),
        _ => panic!("notice expected"),
    }
    let cancel: Vec<CtxResult<Step>> = default_commands_handler(text(7, Some("1"), Some("/cancel")));
    match &cancel[0] {
        CtxResult::Messages(ms) => assert_eq!(ms[0].text(), "Эта команда \"/cancel\" не поддерживается в этом диалоге"),
        _ => panic!("notice expected"),
    }
    let none: Vec<CtxResult<Step>> = default_commands_handler(text(8, Some("1"), None));
    assert_eq!(none.len(), 1);
    assert!(matches!(&none[0], CtxResult::RemoveMessages(ids) if ids == &vec![MessageId(8)]));
}

#[test]
fn create_then_open_repository() {
    let factory = MemFactory::default();
    let mut create = CreateRepoDialogue::new(factory.clone());
    create.init::<Step>().unwrap();
    let r = create.handle_message::<Step>(text(1, Some("1"), Some(""))).unwrap();
    assert!(matches!(&r[1], CtxResult::Messages(ms) if ms[0].text() == "Вы ничего не ввели!"));
    create.handle_message::<Step>(text(2, Some("1"), Some("pw"))).unwrap();
    let r = create.handle_message::<Step>(text(3, Some("1"), Some("other"))).unwrap();
    assert!(matches!(&r[1], CtxResult::Messages(ms) if ms[0].text() == "Неверный пароль. Попробуйте еще раз"));
    let r = create.handle_message::<Step>(text(4, Some("1"), Some("pw"))).unwrap();
    assert!(matches!(&r[1], CtxResult::NewCtx(Step::OpenRepo(_))));
    assert!(factory.user_has_repository(&"1".to_string()));

    let mut open = OpenRepoDialogue::new(factory.clone());
    let r = open.handle_message::<Step>(text(5, Some("1"), Some("bad"))).unwrap();
    assert!(matches!(&r[1], CtxResult::Messages(ms) if ms[0].text() == "Пароль не подходит 🤨. Попробуйте еще раз"));
    let r = open.handle_message::<Step>(text(6, Some("1"), Some("pw"))).unwrap();
    assert!(matches!(&r[0], CtxResult::RemoveMessages(ids) if ids == &vec![MessageId(6)]));
    assert!(matches!(&r[1], CtxResult::NewCtx(Step::ViewRepo(_))));
    let r = open.handle_message::<Step>(text(7, None, Some("pw")));
    assert!(matches!(r, Err(StepError::MissingUser(MessageId(7)))));
    let r = OpenRepoDialogue::new(factory).handle_message::<Step>(text(8, Some("2"), Some("pw"))).unwrap();
    assert!(matches!(r[1], CtxResult::CloseCtx));
}

#[test]
fn add_then_view_and_remove_a_record() {
    let repo = MemRepo::default();
    let mut add = AddRecordDialog::new(repo.clone());
    for (i, t) in ["secret", "mail", "me@example.org"].iter().enumerate() {
        let r = add.handle_message::<MemFactory, Step>(text(i as i32, Some("1"), Some(t))).unwrap();
        assert!(matches!(&r[1], CtxResult::Messages(_)));
    }
    let r = add.handle_message::<MemFactory, Step>(text(9, Some("1"), Some("work"))).unwrap();
    assert!(matches!(&r[1], CtxResult::NewCtx(Step::ViewRepo(_))));
    assert_eq!(*repo.saves.borrow(), 1);
    let record = repo.records.borrow()[0].clone();
    assert_eq!(
        record.get_fields(),
        vec![
            (&RECORD_NAME_FIELD.to_string(), &"mail".to_string()),
            (&RECORD_PASSWD_FIELD.to_string(), &"secret".to_string()),
            (&RECORD_LOGIN_FIELD.to_string(), &"me@example.org".to_string()),
            (&RECORD_DESCR_FIELD.to_string(), &"work".to_string()),
        ]
    );
    assert_eq!(
        record_as_message(&record).text(),
        "Название: <code>mail</code>\nЛогин: <code>me@example.org</code>\nОписание: <code>work</code>\nПароль: <code>secret</code>"
    );

    let mut view = ViewRepoDialog::new(repo.clone());
    let r = view.init::<Step>().unwrap();
    match &r[0] {
        CtxResult::Buttons(m, rows) => {
            assert_eq!(m.text(), "Количество записей: 1");
            assert_eq!(rows.len(), 3);
            assert_eq!(rows[0][0].1, "mail");
            assert_eq!(rows[1][0].0, ButtonPayload(ADD_RECORD.to_string()));
        }
        _ => panic!("buttons expected"),
    }
    let r = view
        .handle_select::<MemFactory, Step>(Select::new(None, Some(record.id.clone()), UserId("1".into())))
        .unwrap();
    assert!(matches!(&r[0], CtxResult::NewCtx(Step::ViewRecord(_))));
    let r = view
        .handle_select::<MemFactory, Step>(Select::new(None, Some(CLOSE_REPO.to_string()), UserId("1".into())))
        .unwrap();
    assert!(matches!(r[0], CtxResult::CloseCtx));

    let mut shown = ViewRecordDialog::new(repo.clone(), record.id.clone());
    let r = shown.init::<MemFactory, Step>().unwrap();
    assert!(matches!(&r[0], CtxResult::Buttons(_, rows) if rows.len() == 3));
    let r = shown
        .handle_select::<MemFactory, Step>(Select::new(None, Some(REMOVE_RECORD.to_string()), UserId("1".into())))
        .unwrap();
    assert!(matches!(&r[0], CtxResult::NewCtx(Step::ViewRepo(_))));
    assert!(repo.records.borrow().is_empty());
    let r = shown.init::<MemFactory, Step>().unwrap();
    assert!(matches!(&r[0], CtxResult::NewCtx(Step::ViewRepo(_))));
}

#[test]
fn view_repo_sorts_records_by_name_and_backs_up() {
    let repo = MemRepo::default();
    for name in ["zeta", "alpha", "mid"] {
        let mut nr = NewRecord::new(name.to_string(), "p".to_string());
        nr.login = None;
        repo.records.borrow_mut().push(nr.into_record());
    }
    let mut view = ViewRepoDialog::new(repo);
    let r = view.init::<Step>().unwrap();
    match &r[0] {
        CtxResult::Buttons(m, rows) => {
            assert_eq!(m.text(), "Количество записей: 3");
            let labels: Vec<&str> = rows.iter().map(|row| row[0].1.as_str()).collect();
            assert_eq!(labels, vec!["alpha", "mid", "zeta", "Добавить запись 🗒", "Закрыть репозиторий 🚪"]);
        }
        _ => panic!("buttons expected"),
    }
    let r = view.handle_command::<Step>(text(3, Some("55"), Some("/backup"))).unwrap();
    assert!(matches!(&r[0], CtxResult::Document(d) if d.name == "user_55.json" && d.data == vec![3]));
}

#[test]
fn bot_state_defaults() {
    assert_eq!(BotState::default(), BotState::Default);
}

#[test]
fn restore_from_an_uploaded_backup() {
    let factory = MemFactory::default();
    factory.initialize_user_repository(&"backup.json".to_string(), "pw".to_string()).unwrap();
    let mut dialog: RestoreDialogue<MemFactory, MemRepo> = RestoreDialogue::new(UserId("9".into()), factory.clone(), "/tmp".into());
    assert!(dialog.file_expected());
    let r = dialog.handle_message::<Step>(text(1, Some("9"), Some("pw"))).unwrap();
    assert_eq!(r.len(), 1);
    let r: Vec<CtxResult<Step>> = dialog.file_staged(MessageId(2), false, "other.json".to_string());
    assert!(matches!(&r[0], CtxResult::Messages(ms) if ms[0].text() == "Введите пароль от файла"));
    let r: Vec<CtxResult<Step>> = dialog.file_staged(MessageId(3), true, "backup.json".to_string());
    assert_eq!(r.len(), 2);
    assert!(matches!(&r[0], CtxResult::Messages(ms) if ms[0].text() == "Изменён загруженный файл"));
    let r = dialog.handle_message::<Step>(text(4, Some("9"), Some("bad"))).unwrap();
    assert!(matches!(&r[1], CtxResult::Messages(ms) if ms[0].text() == "Неверный пароль, попробуйте ещё раз"));
    let r = dialog.handle_message::<Step>(text(5, Some("9"), Some("pw"))).unwrap();
    assert!(matches!(&r[0], CtxResult::RemoveMessages(ids) if ids == &vec![MessageId(5)]));
    assert!(matches!(&r[1], CtxResult::NewCtx(Step::ViewRepo(_))));
    assert!(dialog.take_staged_file().is_none());
    assert!(factory.user_has_repository(&"9".to_string()));
    let r = dialog.shutdown::<Step>().unwrap();
    assert!(matches!(&r[0], CtxResult::RemoveMessages(ids) if { let mut v = ids.clone(); v.sort_by_key(|i| i.0); v == vec![MessageId(2), MessageId(3)] }));
}

#[test]
fn edit_a_field_then_save() {
    let repo = MemRepo::default();
    let record = NewRecord::new("mail".to_string(), "old".to_string()).into_record();
    let id = record.id.clone();
    repo.records.borrow_mut().push(record);
    let mut edit = EditRecordDialog::new(id.clone(), repo.clone());
    let r = edit.init::<MemFactory, Step>().unwrap();
    assert!(matches!(&r[0], CtxResult::Buttons(_, rows) if rows.len() == 4));
    let r = edit
        .handle_select::<MemFactory, Step>(Select::new(None, Some(RECORD_PASSWD_FIELD.to_string()), UserId("1".into())))
        .unwrap();
    assert!(matches!(&r[1], CtxResult::Messages(ms) if ms[0].text() == "Введите новое значение для поля 'пароль'"));
    let r = edit.handle_message::<MemFactory, Step>(text(7, Some("1"), Some("new"))).unwrap();
    assert!(matches!(&r[1], CtxResult::Buttons(_, _)));
    assert_eq!(repo.records.borrow()[0].get_field_value(RECORD_PASSWD_FIELD), Some("new".to_string()));
    let r = edit
        .handle_select::<MemFactory, Step>(Select::new(None, Some("bogus".to_string()), UserId("1".into())));
    assert!(matches!(r, Err(StepError::UnknownField(f)) if f == "bogus"));
    let r = edit.handle_select::<MemFactory, Step>(Select::new(None, None, UserId("1".into())));
    assert!(matches!(r, Err(StepError::MissingSelection)));
}

#[test]
fn test_one() {
    let user_id = "user_id";
    let passwd = "passwd";
    let store: RespsitoriesStore<MemFactory, MemRepo> = RespsitoriesStore::new(MemFactory::default());
    assert!(store.get_repo(&user_id.to_string()).is_none());
    assert!(!passwd.is_empty());
}

#[test]
fn repositories_are_opened_once_and_closed() {
    let factory = MemFactory::default();
    let mut store = RespsitoriesStore::new(factory.clone());
    let repo = store.init_repo("u".to_string(), "pw".to_string()).unwrap();
    assert_eq!(repo.passwd, "pw");
    // Open already: the password is not asked again.
    assert!(store.open_repo("u".to_string(), "other".to_string()).is_ok());
    assert!(store.init_repo("u".to_string(), "x".to_string()).is_ok());
    store.close_repo(&"u".to_string());
    assert!(store.get_repo(&"u".to_string()).is_none());
    assert!(matches!(store.open_repo("u".to_string(), "bad".to_string()), Err(RepositoryOpenError::WrongPassword)));
    assert!(store.get_repo(&"u".to_string()).is_none());
    assert!(store.open_repo("u".to_string(), "pw".to_string()).is_ok());
    assert!(store.get_repo(&"u".to_string()).is_some());
    assert!(matches!(store.init_repo("v".to_string(), "pw".to_string()), Ok(_)));
    store.close_repo(&"v".to_string());
    assert!(matches!(store.init_repo("v".to_string(), "pw".to_string()), Err(RepositoryAlreadyExist)));
    assert!(store.get_repo(&"u".to_string()).is_some());
}

#[test]
fn create_repo_keyboard_opens_the_repository() {
    let keyboard = make_create_repo_keyboard();
    assert_eq!(keyboard, vec![vec![(ButtonPayload("_".to_string()), "Открыть репозиторий".to_string())]]);
}

#[test]
fn hello_expects_no_file_and_restore_does() {
    let factory = MemFactory::default();
    assert!(!hello(&factory).file_expected());
    let restore: RestoreDialogue<MemFactory, MemRepo> = RestoreDialogue::new(UserId("1".into()), factory, "/tmp".into());
    assert!(restore.file_expected());
}

#[test]
fn record_without_password_is_shown_for_editing() {
    let repo = MemRepo::default();
    let record = Record::with_id("r1".to_string(), vec![(RECORD_NAME_FIELD.to_string(), "n".to_string())]);
    repo.records.borrow_mut().push(record.clone());
    assert_eq!(record_as_message(&record).text(), "Название: <code>n</code>");
    let mut edit = EditRecordDialog::new("r1".to_string(), repo);
    let r = edit.init::<MemFactory, Step>().unwrap();
    assert!(matches!(&r[0], CtxResult::Buttons(_, rows) if rows.len() == 3));
}
