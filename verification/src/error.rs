use vstd::prelude::*;
use vstd::string::*;

verus! {

/// The credential that a configuration lacks.
#[derive(Debug, Clone, Copy, PartialEq, Eq, Structural)]
pub enum CredentialField {
    Account,
    Password,
}

/// The families into which the failures of a run fall.
#[derive(Debug, Clone, Copy, PartialEq, Eq, Structural)]
pub enum ErrorKind {
    Configuration,
    Authentication,
    Remote,
    Transport,
    Parse,
    Precondition,
    Filesystem,
}

/// Why a run failed. Every failure ends the run: nothing is tried again.
#[derive(Debug, Clone)]
pub enum ExportError {
    /// A credential is empty.
    Configuration(CredentialField),
    /// The service rejected the login.
    Authentication { message: String },
    /// The service answered an authenticated call with a status other than
    /// success.
    Remote { status: i16, message: String },
    /// The connection failed or timed out.
    Transport { message: String },
    /// The response could not be decoded; `body` is the response as received.
    Parse { reason: String, body: String },
    /// The output directory exists already.
    OutputDirExists,
    /// The catalog holds no document.
    EmptyCatalog,
    /// A document came without a content body, so there is nothing to write.
    MissingContent,
    /// A directory or a file could not be written.
    Filesystem { message: String },
    /// An event arrived that the run was not waiting for.
    OutOfSequence,
}

impl ExportError {
    /// The family of this failure.
    pub open spec fn spec_kind(&self) -> ErrorKind {
        match self {
            ExportError::Configuration(_) => ErrorKind::Configuration,
            ExportError::Authentication { .. } => ErrorKind::Authentication,
            ExportError::Remote { .. } => ErrorKind::Remote,
            ExportError::Transport { .. } => ErrorKind::Transport,
            ExportError::Parse { .. } => ErrorKind::Parse,
            ExportError::OutputDirExists => ErrorKind::Precondition,
            ExportError::EmptyCatalog => ErrorKind::Precondition,
            ExportError::OutOfSequence => ErrorKind::Precondition,
            ExportError::MissingContent => ErrorKind::Filesystem,
            ExportError::Filesystem { .. } => ErrorKind::Filesystem,
        }
    }

    /// The line shown to the user for this failure.
    pub open spec fn spec_message(&self) -> Seq<char> {
        match self {
            ExportError::Configuration(CredentialField::Account) => "请配置为知account"@,
            ExportError::Configuration(CredentialField::Password) => "请配置为知password"@,
            ExportError::Authentication { message } => "为知笔记登录失败: "@ + message@,
            ExportError::Remote { status, message } => "请求错误: "@ + message@,
            ExportError::Transport { message } => message@,
            ExportError::Parse { reason, body } => "返回值无法解析: "@ + reason@ + " body: "@
                + body@,
            ExportError::OutputDirExists => "输出目录已存在，请删除后重试！"@,
            ExportError::EmptyCatalog => "笔记数量为0"@,
            ExportError::MissingContent => "笔记内容为空"@,
            ExportError::Filesystem { message } => message@,
            ExportError::OutOfSequence => "事件与当前状态不符"@,
        }
    }

    /// The family of this failure.
    pub fn kind(&self) -> (k: ErrorKind)
        ensures
            k == self.spec_kind(),
    {
        match self {
            ExportError::Configuration(_) => ErrorKind::Configuration,
            ExportError::Authentication { .. } => ErrorKind::Authentication,
            ExportError::Remote { .. } => ErrorKind::Remote,
            ExportError::Transport { .. } => ErrorKind::Transport,
            ExportError::Parse { .. } => ErrorKind::Parse,
            ExportError::OutputDirExists => ErrorKind::Precondition,
            ExportError::EmptyCatalog => ErrorKind::Precondition,
            ExportError::OutOfSequence => ErrorKind::Precondition,
            ExportError::MissingContent => ErrorKind::Filesystem,
            ExportError::Filesystem { .. } => ErrorKind::Filesystem,
        }
    }

    /// The line shown to the user for this failure.
    pub fn message(&self) -> (m: String)
        ensures
            m@ == self.spec_message(),
    {
        match self {
            ExportError::Configuration(CredentialField::Account) => String::from_str(
                "请配置为知account",
            ),
            ExportError::Configuration(CredentialField::Password) => String::from_str(
                "请配置为知password",
            ),
            ExportError::Authentication { message } => {
                let mut m = String::from_str("为知笔记登录失败: ");
                m.append(message.as_str());
                m
            },
            ExportError::Remote { status, message } => {
                let mut m = String::from_str("请求错误: ");
                m.append(message.as_str());
                m
            },
            ExportError::Transport { message } => String::from_str(message.as_str()),
            ExportError::Parse { reason, body } => {
                let mut m = String::from_str("返回值无法解析: ");
                m.append(reason.as_str());
                m.append(" body: ");
                m.append(body.as_str());
                m
            },
            ExportError::OutputDirExists => String::from_str("输出目录已存在，请删除后重试！"),
            ExportError::EmptyCatalog => String::from_str("笔记数量为0"),
            ExportError::MissingContent => String::from_str("笔记内容为空"),
            ExportError::Filesystem { message } => String::from_str(message.as_str()),
            ExportError::OutOfSequence => String::from_str("事件与当前状态不符"),
        }
    }
}

} // verus!
