//! The translation tables: one lookup per language, each stated as a spec
//! function over the key and implemented by the same chain of comparisons.
use vstd::prelude::*;
use crate::text::{has_infix, str_eq};

verus! {

/// The EN table: the text stored under `key`, if any.
pub open spec fn en_entry(key: Seq<char>) -> Option<Seq<char>> {
    if key == "tray.show"@ {
        Some("Show"@)
    } else if key == "tray.reload_config"@ {
        Some("Reload config"@)
    } else if key == "tray.register_tel"@ {
        Some("Register as tel: handler"@)
    } else if key == "tray.devtools"@ {
        Some("DevTools (F12)"@)
    } else if key == "tray.open_config"@ {
        Some("Open configuration"@)
    } else if key == "tray.quit"@ {
        Some("Quit"@)
    } else if key == "popup.send_mail"@ {
        Some("✉  Send callback mail"@)
    } else if key == "mailto.subject"@ {
        Some("Please call back: {name} {number}"@)
    } else if key == "hist.select_multiple"@ {
        Some("Select multiple"@)
    } else if key == "hist.all"@ {
        Some("All"@)
    } else if key == "hist.selected_count"@ {
        Some("selected"@)
    } else if key == "hist.delete_selected"@ {
        Some("Delete selected"@)
    } else if key == "hist.cancel"@ {
        Some("Cancel"@)
    } else if key == "hist.confirm_delete"@ {
        Some("Do you want to delete {count} entries?"@)
    } else if key == "hist.preparing"@ {
        Some("Preparing..."@)
    } else if key == "hist.deleting"@ {
        Some("Deleting"@)
    } else if key == "hist.deleted"@ {
        Some("deleted!"@)
    } else if key == "setup.title"@ {
        Some("Set up 4dy Client"@)
    } else if key == "setup.prompt"@ {
        Some("Enter the URL of your 3CX Web Client:"@)
    } else if key == "setup.placeholder"@ {
        Some("https://my-company.3cx.com"@)
    } else if key == "setup.error_empty"@ {
        Some("Please enter a URL."@)
    } else if key == "setup.error_url"@ {
        Some("Please enter a valid URL (e.g. https://my-company.3cx.com)"@)
    } else if key == "setup.save_error"@ {
        Some("Error saving:"@)
    } else if key == "setup.button"@ {
        Some("Continue"@)
    } else if key == "setup.saving"@ {
        Some("Saving..."@)
    } else if key == "setup.restart_msg"@ {
        Some("Configuration saved successfully.\nPlease restart the application."@)
    } else if key == "setup.restart_title"@ {
        Some("4dy Client"@)
    } else {
        None
    }
}

/// Looks `key` up in the EN table.
pub fn en_lookup(key: &str) -> (r: Option<&'static str>)
    ensures
        match r {
            Some(v) => en_entry(key@) == Some(v@),
            None => en_entry(key@) is None,
        },
{
    if str_eq(key, "tray.show") {
        Some("Show")
    } else if str_eq(key, "tray.reload_config") {
        Some("Reload config")
    } else if str_eq(key, "tray.register_tel") {
        Some("Register as tel: handler")
    } else if str_eq(key, "tray.devtools") {
        Some("DevTools (F12)")
    } else if str_eq(key, "tray.open_config") {
        Some("Open configuration")
    } else if str_eq(key, "tray.quit") {
        Some("Quit")
    } else if str_eq(key, "popup.send_mail") {
        Some("✉  Send callback mail")
    } else if str_eq(key, "mailto.subject") {
        Some("Please call back: {name} {number}")
    } else if str_eq(key, "hist.select_multiple") {
        Some("Select multiple")
    } else if str_eq(key, "hist.all") {
        Some("All")
    } else if str_eq(key, "hist.selected_count") {
        Some("selected")
    } else if str_eq(key, "hist.delete_selected") {
        Some("Delete selected")
    } else if str_eq(key, "hist.cancel") {
        Some("Cancel")
    } else if str_eq(key, "hist.confirm_delete") {
        Some("Do you want to delete {count} entries?")
    } else if str_eq(key, "hist.preparing") {
        Some("Preparing...")
    } else if str_eq(key, "hist.deleting") {
        Some("Deleting")
    } else if str_eq(key, "hist.deleted") {
        Some("deleted!")
    } else if str_eq(key, "setup.title") {
        Some("Set up 4dy Client")
    } else if str_eq(key, "setup.prompt") {
        Some("Enter the URL of your 3CX Web Client:")
    } else if str_eq(key, "setup.placeholder") {
        Some("https://my-company.3cx.com")
    } else if str_eq(key, "setup.error_empty") {
        Some("Please enter a URL.")
    } else if str_eq(key, "setup.error_url") {
        Some("Please enter a valid URL (e.g. https://my-company.3cx.com)")
    } else if str_eq(key, "setup.save_error") {
        Some("Error saving:")
    } else if str_eq(key, "setup.button") {
        Some("Continue")
    } else if str_eq(key, "setup.saving") {
        Some("Saving...")
    } else if str_eq(key, "setup.restart_msg") {
        Some("Configuration saved successfully.\nPlease restart the application.")
    } else if str_eq(key, "setup.restart_title") {
        Some("4dy Client")
    } else {
        None
    }
}

/// The DE table: the text stored under `key`, if any.
pub open spec fn de_entry(key: Seq<char>) -> Option<Seq<char>> {
    if key == "tray.show"@ {
        Some("Anzeigen"@)
    } else if key == "tray.reload_config"@ {
        Some("Config neu laden"@)
    } else if key == "tray.register_tel"@ {
        Some("Als tel: Handler registrieren"@)
    } else if key == "tray.devtools"@ {
        Some("DevTools (F12)"@)
    } else if key == "tray.open_config"@ {
        Some("Konfiguration öffnen"@)
    } else if key == "tray.quit"@ {
        Some("Beenden"@)
    } else if key == "popup.send_mail"@ {
        Some("✉  Rückruf-Mail senden"@)
    } else if key == "mailto.subject"@ {
        Some("Bitte zurückrufen: {name} {number}"@)
    } else if key == "hist.select_multiple"@ {
        Some("Mehrere auswählen"@)
    } else if key == "hist.all"@ {
        Some("Alle"@)
    } else if key == "hist.selected_count"@ {
        Some("ausgewählt"@)
    } else if key == "hist.delete_selected"@ {
        Some("Ausgewählte löschen"@)
    } else if key == "hist.cancel"@ {
        Some("Abbrechen"@)
    } else if key == "hist.confirm_delete"@ {
        Some("Möchtest du {count} Einträge löschen?"@)
    } else if key == "hist.preparing"@ {
        Some("Vorbereiten..."@)
    } else if key == "hist.deleting"@ {
        Some("Lösche"@)
    } else if key == "hist.deleted"@ {
        Some("gelöscht!"@)
    } else if key == "setup.title"@ {
        Some("4dy Client einrichten"@)
    } else if key == "setup.prompt"@ {
        Some("Bitte gib die URL deines 3CX Web-Clients ein:"@)
    } else if key == "setup.placeholder"@ {
        Some("https://meine-firma.3cx.de"@)
    } else if key == "setup.error_empty"@ {
        Some("Bitte eine URL eingeben."@)
    } else if key == "setup.error_url"@ {
        Some("Bitte eine gültige URL eingeben (z.B. https://meine-firma.3cx.de)"@)
    } else if key == "setup.save_error"@ {
        Some("Fehler beim Speichern:"@)
    } else if key == "setup.button"@ {
        Some("Weiter"@)
    } else if key == "setup.saving"@ {
        Some("Speichere..."@)
    } else if key == "setup.restart_msg"@ {
        Some("Konfiguration gespeichert.\nBitte starte die Anwendung neu."@)
    } else if key == "setup.restart_title"@ {
        Some("4dy Client"@)
    } else {
        None
    }
}

/// Looks `key` up in the DE table.
pub fn de_lookup(key: &str) -> (r: Option<&'static str>)
    ensures
        match r {
            Some(v) => de_entry(key@) == Some(v@),
            None => de_entry(key@) is None,
        },
{
    if str_eq(key, "tray.show") {
        Some("Anzeigen")
    } else if str_eq(key, "tray.reload_config") {
        Some("Config neu laden")
    } else if str_eq(key, "tray.register_tel") {
        Some("Als tel: Handler registrieren")
    } else if str_eq(key, "tray.devtools") {
        Some("DevTools (F12)")
    } else if str_eq(key, "tray.open_config") {
        Some("Konfiguration öffnen")
    } else if str_eq(key, "tray.quit") {
        Some("Beenden")
    } else if str_eq(key, "popup.send_mail") {
        Some("✉  Rückruf-Mail senden")
    } else if str_eq(key, "mailto.subject") {
        Some("Bitte zurückrufen: {name} {number}")
    } else if str_eq(key, "hist.select_multiple") {
        Some("Mehrere auswählen")
    } else if str_eq(key, "hist.all") {
        Some("Alle")
    } else if str_eq(key, "hist.selected_count") {
        Some("ausgewählt")
    } else if str_eq(key, "hist.delete_selected") {
        Some("Ausgewählte löschen")
    } else if str_eq(key, "hist.cancel") {
        Some("Abbrechen")
    } else if str_eq(key, "hist.confirm_delete") {
        Some("Möchtest du {count} Einträge löschen?")
    } else if str_eq(key, "hist.preparing") {
        Some("Vorbereiten...")
    } else if str_eq(key, "hist.deleting") {
        Some("Lösche")
    } else if str_eq(key, "hist.deleted") {
        Some("gelöscht!")
    } else if str_eq(key, "setup.title") {
        Some("4dy Client einrichten")
    } else if str_eq(key, "setup.prompt") {
        Some("Bitte gib die URL deines 3CX Web-Clients ein:")
    } else if str_eq(key, "setup.placeholder") {
        Some("https://meine-firma.3cx.de")
    } else if str_eq(key, "setup.error_empty") {
        Some("Bitte eine URL eingeben.")
    } else if str_eq(key, "setup.error_url") {
        Some("Bitte eine gültige URL eingeben (z.B. https://meine-firma.3cx.de)")
    } else if str_eq(key, "setup.save_error") {
        Some("Fehler beim Speichern:")
    } else if str_eq(key, "setup.button") {
        Some("Weiter")
    } else if str_eq(key, "setup.saving") {
        Some("Speichere...")
    } else if str_eq(key, "setup.restart_msg") {
        Some("Konfiguration gespeichert.\nBitte starte die Anwendung neu.")
    } else if str_eq(key, "setup.restart_title") {
        Some("4dy Client")
    } else {
        None
    }
}

/// The FR table: the text stored under `key`, if any.
pub open spec fn fr_entry(key: Seq<char>) -> Option<Seq<char>> {
    if key == "tray.show"@ {
        Some("Afficher"@)
    } else if key == "tray.reload_config"@ {
        Some("Recharger la config"@)
    } else if key == "tray.register_tel"@ {
        Some("Enregistrer comme gestionnaire tel:"@)
    } else if key == "tray.devtools"@ {
        Some("DevTools (F12)"@)
    } else if key == "tray.open_config"@ {
        Some("Ouvrir la configuration"@)
    } else if key == "tray.quit"@ {
        Some("Quitter"@)
    } else if key == "popup.send_mail"@ {
        Some("✉  Envoyer un mail de rappel"@)
    } else if key == "mailto.subject"@ {
        Some("Merci de rappeler : {name} {number}"@)
    } else if key == "hist.select_multiple"@ {
        Some("Sélection multiple"@)
    } else if key == "hist.all"@ {
        Some("Tous"@)
    } else if key == "hist.selected_count"@ {
        Some("sélectionné(s)"@)
    } else if key == "hist.delete_selected"@ {
        Some("Supprimer la sélection"@)
    } else if key == "hist.cancel"@ {
        Some("Annuler"@)
    } else if key == "hist.confirm_delete"@ {
        Some("Voulez-vous supprimer {count} entrées ?"@)
    } else if key == "hist.preparing"@ {
        Some("Préparation..."@)
    } else if key == "hist.deleting"@ {
        Some("Suppression"@)
    } else if key == "hist.deleted"@ {
        Some("supprimé(s) !"@)
    } else if key == "setup.title"@ {
        Some("Configurer 4dy Client"@)
    } else if key == "setup.prompt"@ {
        Some("Entrez l'URL de votre client web 3CX :"@)
    } else if key == "setup.placeholder"@ {
        Some("https://mon-entreprise.3cx.fr"@)
    } else if key == "setup.error_empty"@ {
        Some("Veuillez entrer une URL."@)
    } else if key == "setup.error_url"@ {
        Some("Veuillez entrer une URL valide"@)
    } else if key == "setup.save_error"@ {
        Some("Erreur lors de la sauvegarde :"@)
    } else if key == "setup.button"@ {
        Some("Continuer"@)
    } else if key == "setup.saving"@ {
        Some("Enregistrement..."@)
    } else {
        None
    }
}

/// Looks `key` up in the FR table.
pub fn fr_lookup(key: &str) -> (r: Option<&'static str>)
    ensures
        match r {
            Some(v) => fr_entry(key@) == Some(v@),
            None => fr_entry(key@) is None,
        },
{
    if str_eq(key, "tray.show") {
        Some("Afficher")
    } else if str_eq(key, "tray.reload_config") {
        Some("Recharger la config")
    } else if str_eq(key, "tray.register_tel") {
        Some("Enregistrer comme gestionnaire tel:")
    } else if str_eq(key, "tray.devtools") {
        Some("DevTools (F12)")
    } else if str_eq(key, "tray.open_config") {
        Some("Ouvrir la configuration")
    } else if str_eq(key, "tray.quit") {
        Some("Quitter")
    } else if str_eq(key, "popup.send_mail") {
        Some("✉  Envoyer un mail de rappel")
    } else if str_eq(key, "mailto.subject") {
        Some("Merci de rappeler : {name} {number}")
    } else if str_eq(key, "hist.select_multiple") {
        Some("Sélection multiple")
    } else if str_eq(key, "hist.all") {
        Some("Tous")
    } else if str_eq(key, "hist.selected_count") {
        Some("sélectionné(s)")
    } else if str_eq(key, "hist.delete_selected") {
        Some("Supprimer la sélection")
    } else if str_eq(key, "hist.cancel") {
        Some("Annuler")
    } else if str_eq(key, "hist.confirm_delete") {
        Some("Voulez-vous supprimer {count} entrées ?")
    } else if str_eq(key, "hist.preparing") {
        Some("Préparation...")
    } else if str_eq(key, "hist.deleting") {
        Some("Suppression")
    } else if str_eq(key, "hist.deleted") {
        Some("supprimé(s) !")
    } else if str_eq(key, "setup.title") {
        Some("Configurer 4dy Client")
    } else if str_eq(key, "setup.prompt") {
        Some("Entrez l'URL de votre client web 3CX :")
    } else if str_eq(key, "setup.placeholder") {
        Some("https://mon-entreprise.3cx.fr")
    } else if str_eq(key, "setup.error_empty") {
        Some("Veuillez entrer une URL.")
    } else if str_eq(key, "setup.error_url") {
        Some("Veuillez entrer une URL valide")
    } else if str_eq(key, "setup.save_error") {
        Some("Erreur lors de la sauvegarde :")
    } else if str_eq(key, "setup.button") {
        Some("Continuer")
    } else if str_eq(key, "setup.saving") {
        Some("Enregistrement...")
    } else {
        None
    }
}

/// The IT table: the text stored under `key`, if any.
pub open spec fn it_entry(key: Seq<char>) -> Option<Seq<char>> {
    if key == "tray.show"@ {
        Some("Mostra"@)
    } else if key == "tray.reload_config"@ {
        Some("Ricarica config"@)
    } else if key == "tray.register_tel"@ {
        Some("Registra come gestore tel:"@)
    } else if key == "tray.devtools"@ {
        Some("DevTools (F12)"@)
    } else if key == "tray.open_config"@ {
        Some("Apri configurazione"@)
    } else if key == "tray.quit"@ {
        Some("Esci"@)
    } else if key == "popup.send_mail"@ {
        Some("✉  Invia mail di richiamata"@)
    } else if key == "mailto.subject"@ {
        Some("Si prega di richiamare: {name} {number}"@)
    } else if key == "hist.select_multiple"@ {
        Some("Selezione multipla"@)
    } else if key == "hist.all"@ {
        Some("Tutti"@)
    } else if key == "hist.selected_count"@ {
        Some("selezionato/i"@)
    } else if key == "hist.delete_selected"@ {
        Some("Elimina selezionati"@)
    } else if key == "hist.cancel"@ {
        Some("Annulla"@)
    } else if key == "hist.confirm_delete"@ {
        Some("Vuoi eliminare {count} voci?"@)
    } else if key == "hist.preparing"@ {
        Some("Preparazione..."@)
    } else if key == "hist.deleting"@ {
        Some("Eliminazione"@)
    } else if key == "hist.deleted"@ {
        Some("eliminato/i!"@)
    } else if key == "setup.title"@ {
        Some("Configura 4dy Client"@)
    } else if key == "setup.prompt"@ {
        Some("Inserisci l'URL del tuo client web 3CX:"@)
    } else if key == "setup.placeholder"@ {
        Some("https://mia-azienda.3cx.it"@)
    } else if key == "setup.error_empty"@ {
        Some("Inserisci un URL."@)
    } else if key == "setup.error_url"@ {
        Some("Inserisci un URL valido"@)
    } else if key == "setup.save_error"@ {
        Some("Errore nel salvataggio:"@)
    } else if key == "setup.button"@ {
        Some("Continua"@)
    } else if key == "setup.saving"@ {
        Some("Salvataggio..."@)
    } else {
        None
    }
}

/// Looks `key` up in the IT table.
pub fn it_lookup(key: &str) -> (r: Option<&'static str>)
    ensures
        match r {
            Some(v) => it_entry(key@) == Some(v@),
            None => it_entry(key@) is None,
        },
{
    if str_eq(key, "tray.show") {
        Some("Mostra")
    } else if str_eq(key, "tray.reload_config") {
        Some("Ricarica config")
    } else if str_eq(key, "tray.register_tel") {
        Some("Registra come gestore tel:")
    } else if str_eq(key, "tray.devtools") {
        Some("DevTools (F12)")
    } else if str_eq(key, "tray.open_config") {
        Some("Apri configurazione")
    } else if str_eq(key, "tray.quit") {
        Some("Esci")
    } else if str_eq(key, "popup.send_mail") {
        Some("✉  Invia mail di richiamata")
    } else if str_eq(key, "mailto.subject") {
        Some("Si prega di richiamare: {name} {number}")
    } else if str_eq(key, "hist.select_multiple") {
        Some("Selezione multipla")
    } else if str_eq(key, "hist.all") {
        Some("Tutti")
    } else if str_eq(key, "hist.selected_count") {
        Some("selezionato/i")
    } else if str_eq(key, "hist.delete_selected") {
        Some("Elimina selezionati")
    } else if str_eq(key, "hist.cancel") {
        Some("Annulla")
    } else if str_eq(key, "hist.confirm_delete") {
        Some("Vuoi eliminare {count} voci?")
    } else if str_eq(key, "hist.preparing") {
        Some("Preparazione...")
    } else if str_eq(key, "hist.deleting") {
        Some("Eliminazione")
    } else if str_eq(key, "hist.deleted") {
        Some("eliminato/i!")
    } else if str_eq(key, "setup.title") {
        Some("Configura 4dy Client")
    } else if str_eq(key, "setup.prompt") {
        Some("Inserisci l'URL del tuo client web 3CX:")
    } else if str_eq(key, "setup.placeholder") {
        Some("https://mia-azienda.3cx.it")
    } else if str_eq(key, "setup.error_empty") {
        Some("Inserisci un URL.")
    } else if str_eq(key, "setup.error_url") {
        Some("Inserisci un URL valido")
    } else if str_eq(key, "setup.save_error") {
        Some("Errore nel salvataggio:")
    } else if str_eq(key, "setup.button") {
        Some("Continua")
    } else if str_eq(key, "setup.saving") {
        Some("Salvataggio...")
    } else {
        None
    }
}

/// The ES table: the text stored under `key`, if any.
pub open spec fn es_entry(key: Seq<char>) -> Option<Seq<char>> {
    if key == "tray.show"@ {
        Some("Mostrar"@)
    } else if key == "tray.reload_config"@ {
        Some("Recargar config"@)
    } else if key == "tray.register_tel"@ {
        Some("Registrar como gestor tel:"@)
    } else if key == "tray.devtools"@ {
        Some("DevTools (F12)"@)
    } else if key == "tray.open_config"@ {
        Some("Abrir configuración"@)
    } else if key == "tray.quit"@ {
        Some("Salir"@)
    } else if key == "popup.send_mail"@ {
        Some("✉  Enviar correo de devolución"@)
    } else if key == "mailto.subject"@ {
        Some("Por favor devolver llamada: {name} {number}"@)
    } else if key == "hist.select_multiple"@ {
        Some("Selección múltiple"@)
    } else if key == "hist.all"@ {
        Some("Todos"@)
    } else if key == "hist.selected_count"@ {
        Some("seleccionado(s)"@)
    } else if key == "hist.delete_selected"@ {
        Some("Eliminar seleccionados"@)
    } else if key == "hist.cancel"@ {
        Some("Cancelar"@)
    } else if key == "hist.confirm_delete"@ {
        Some("¿Desea eliminar {count} entradas?"@)
    } else if key == "hist.preparing"@ {
        Some("Preparando..."@)
    } else if key == "hist.deleting"@ {
        Some("Eliminando"@)
    } else if key == "hist.deleted"@ {
        Some("eliminado(s)!"@)
    } else if key == "setup.title"@ {
        Some("Configurar 4dy Client"@)
    } else if key == "setup.prompt"@ {
        Some("Introduce la URL de tu cliente web 3CX:"@)
    } else if key == "setup.placeholder"@ {
        Some("https://mi-empresa.3cx.es"@)
    } else if key == "setup.error_empty"@ {
        Some("Introduce una URL."@)
    } else if key == "setup.error_url"@ {
        Some("Introduce una URL válida"@)
    } else if key == "setup.save_error"@ {
        Some("Error al guardar:"@)
    } else if key == "setup.button"@ {
        Some("Continuar"@)
    } else if key == "setup.saving"@ {
        Some("Guardando..."@)
    } else {
        None
    }
}

/// Looks `key` up in the ES table.
pub fn es_lookup(key: &str) -> (r: Option<&'static str>)
    ensures
        match r {
            Some(v) => es_entry(key@) == Some(v@),
            None => es_entry(key@) is None,
        },
{
    if str_eq(key, "tray.show") {
        Some("Mostrar")
    } else if str_eq(key, "tray.reload_config") {
        Some("Recargar config")
    } else if str_eq(key, "tray.register_tel") {
        Some("Registrar como gestor tel:")
    } else if str_eq(key, "tray.devtools") {
        Some("DevTools (F12)")
    } else if str_eq(key, "tray.open_config") {
        Some("Abrir configuración")
    } else if str_eq(key, "tray.quit") {
        Some("Salir")
    } else if str_eq(key, "popup.send_mail") {
        Some("✉  Enviar correo de devolución")
    } else if str_eq(key, "mailto.subject") {
        Some("Por favor devolver llamada: {name} {number}")
    } else if str_eq(key, "hist.select_multiple") {
        Some("Selección múltiple")
    } else if str_eq(key, "hist.all") {
        Some("Todos")
    } else if str_eq(key, "hist.selected_count") {
        Some("seleccionado(s)")
    } else if str_eq(key, "hist.delete_selected") {
        Some("Eliminar seleccionados")
    } else if str_eq(key, "hist.cancel") {
        Some("Cancelar")
    } else if str_eq(key, "hist.confirm_delete") {
        Some("¿Desea eliminar {count} entradas?")
    } else if str_eq(key, "hist.preparing") {
        Some("Preparando...")
    } else if str_eq(key, "hist.deleting") {
        Some("Eliminando")
    } else if str_eq(key, "hist.deleted") {
        Some("eliminado(s)!")
    } else if str_eq(key, "setup.title") {
        Some("Configurar 4dy Client")
    } else if str_eq(key, "setup.prompt") {
        Some("Introduce la URL de tu cliente web 3CX:")
    } else if str_eq(key, "setup.placeholder") {
        Some("https://mi-empresa.3cx.es")
    } else if str_eq(key, "setup.error_empty") {
        Some("Introduce una URL.")
    } else if str_eq(key, "setup.error_url") {
        Some("Introduce una URL válida")
    } else if str_eq(key, "setup.save_error") {
        Some("Error al guardar:")
    } else if str_eq(key, "setup.button") {
        Some("Continuar")
    } else if str_eq(key, "setup.saving") {
        Some("Guardando...")
    } else {
        None
    }
}

/// The NL table: the text stored under `key`, if any.
pub open spec fn nl_entry(key: Seq<char>) -> Option<Seq<char>> {
    if key == "tray.show"@ {
        Some("Tonen"@)
    } else if key == "tray.reload_config"@ {
        Some("Config herladen"@)
    } else if key == "tray.register_tel"@ {
        Some("Registreren als tel: handler"@)
    } else if key == "tray.devtools"@ {
        Some("DevTools (F12)"@)
    } else if key == "tray.open_config"@ {
        Some("Configuratie openen"@)
    } else if key == "tray.quit"@ {
        Some("Afsluiten"@)
    } else if key == "popup.send_mail"@ {
        Some("✉  Terugbelmail verzenden"@)
    } else if key == "mailto.subject"@ {
        Some("Graag terugbellen: {name} {number}"@)
    } else if key == "hist.select_multiple"@ {
        Some("Meerdere selecteren"@)
    } else if key == "hist.all"@ {
        Some("Alle"@)
    } else if key == "hist.selected_count"@ {
        Some("geselecteerd"@)
    } else if key == "hist.delete_selected"@ {
        Some("Selectie verwijderen"@)
    } else if key == "hist.cancel"@ {
        Some("Annuleren"@)
    } else if key == "hist.confirm_delete"@ {
        Some("Wilt u {count} items verwijderen?"@)
    } else if key == "hist.preparing"@ {
        Some("Voorbereiden..."@)
    } else if key == "hist.deleting"@ {
        Some("Verwijderen"@)
    } else if key == "hist.deleted"@ {
        Some("verwijderd!"@)
    } else if key == "setup.title"@ {
        Some("4dy Client instellen"@)
    } else if key == "setup.prompt"@ {
        Some("Voer de URL van uw 3CX-webclient in:"@)
    } else if key == "setup.placeholder"@ {
        Some("https://mijn-bedrijf.3cx.nl"@)
    } else if key == "setup.error_empty"@ {
        Some("Voer een URL in."@)
    } else if key == "setup.error_url"@ {
        Some("Voer een geldige URL in"@)
    } else if key == "setup.save_error"@ {
        Some("Fout bij opslaan:"@)
    } else if key == "setup.button"@ {
        Some("Doorgaan"@)
    } else if key == "setup.saving"@ {
        Some("Opslaan..."@)
    } else {
        None
    }
}

/// Looks `key` up in the NL table.
pub fn nl_lookup(key: &str) -> (r: Option<&'static str>)
    ensures
        match r {
            Some(v) => nl_entry(key@) == Some(v@),
            None => nl_entry(key@) is None,
        },
{
    if str_eq(key, "tray.show") {
        Some("Tonen")
    } else if str_eq(key, "tray.reload_config") {
        Some("Config herladen")
    } else if str_eq(key, "tray.register_tel") {
        Some("Registreren als tel: handler")
    } else if str_eq(key, "tray.devtools") {
        Some("DevTools (F12)")
    } else if str_eq(key, "tray.open_config") {
        Some("Configuratie openen")
    } else if str_eq(key, "tray.quit") {
        Some("Afsluiten")
    } else if str_eq(key, "popup.send_mail") {
        Some("✉  Terugbelmail verzenden")
    } else if str_eq(key, "mailto.subject") {
        Some("Graag terugbellen: {name} {number}")
    } else if str_eq(key, "hist.select_multiple") {
        Some("Meerdere selecteren")
    } else if str_eq(key, "hist.all") {
        Some("Alle")
    } else if str_eq(key, "hist.selected_count") {
        Some("geselecteerd")
    } else if str_eq(key, "hist.delete_selected") {
        Some("Selectie verwijderen")
    } else if str_eq(key, "hist.cancel") {
        Some("Annuleren")
    } else if str_eq(key, "hist.confirm_delete") {
        Some("Wilt u {count} items verwijderen?")
    } else if str_eq(key, "hist.preparing") {
        Some("Voorbereiden...")
    } else if str_eq(key, "hist.deleting") {
        Some("Verwijderen")
    } else if str_eq(key, "hist.deleted") {
        Some("verwijderd!")
    } else if str_eq(key, "setup.title") {
        Some("4dy Client instellen")
    } else if str_eq(key, "setup.prompt") {
        Some("Voer de URL van uw 3CX-webclient in:")
    } else if str_eq(key, "setup.placeholder") {
        Some("https://mijn-bedrijf.3cx.nl")
    } else if str_eq(key, "setup.error_empty") {
        Some("Voer een URL in.")
    } else if str_eq(key, "setup.error_url") {
        Some("Voer een geldige URL in")
    } else if str_eq(key, "setup.save_error") {
        Some("Fout bij opslaan:")
    } else if str_eq(key, "setup.button") {
        Some("Doorgaan")
    } else if str_eq(key, "setup.saving") {
        Some("Opslaan...")
    } else {
        None
    }
}

/// The PT table: the text stored under `key`, if any.
pub open spec fn pt_entry(key: Seq<char>) -> Option<Seq<char>> {
    if key == "tray.show"@ {
        Some("Mostrar"@)
    } else if key == "tray.reload_config"@ {
        Some("Recarregar config"@)
    } else if key == "tray.register_tel"@ {
        Some("Registar como gestor tel:"@)
    } else if key == "tray.devtools"@ {
        Some("DevTools (F12)"@)
    } else if key == "tray.open_config"@ {
        Some("Abrir configuração"@)
    } else if key == "tray.quit"@ {
        Some("Sair"@)
    } else if key == "popup.send_mail"@ {
        Some("✉  Enviar email de retorno"@)
    } else if key == "mailto.subject"@ {
        Some("Por favor retornar: {name} {number}"@)
    } else if key == "hist.select_multiple"@ {
        Some("Selecionar múltiplos"@)
    } else if key == "hist.all"@ {
        Some("Todos"@)
    } else if key == "hist.selected_count"@ {
        Some("selecionado(s)"@)
    } else if key == "hist.delete_selected"@ {
        Some("Eliminar selecionados"@)
    } else if key == "hist.cancel"@ {
        Some("Cancelar"@)
    } else if key == "hist.confirm_delete"@ {
        Some("Deseja eliminar {count} entradas?"@)
    } else if key == "hist.preparing"@ {
        Some("A preparar..."@)
    } else if key == "hist.deleting"@ {
        Some("A eliminar"@)
    } else if key == "hist.deleted"@ {
        Some("eliminado(s)!"@)
    } else if key == "setup.title"@ {
        Some("Configurar 4dy Client"@)
    } else if key == "setup.prompt"@ {
        Some("Introduza o URL do seu cliente web 3CX:"@)
    } else if key == "setup.placeholder"@ {
        Some("https://minha-empresa.3cx.pt"@)
    } else if key == "setup.error_empty"@ {
        Some("Introduza um URL."@)
    } else if key == "setup.error_url"@ {
        Some("Introduza um URL válido"@)
    } else if key == "setup.save_error"@ {
        Some("Erro ao guardar:"@)
    } else if key == "setup.button"@ {
        Some("Continuar"@)
    } else if key == "setup.saving"@ {
        Some("A guardar..."@)
    } else {
        None
    }
}

/// Looks `key` up in the PT table.
pub fn pt_lookup(key: &str) -> (r: Option<&'static str>)
    ensures
        match r {
            Some(v) => pt_entry(key@) == Some(v@),
            None => pt_entry(key@) is None,
        },
{
    if str_eq(key, "tray.show") {
        Some("Mostrar")
    } else if str_eq(key, "tray.reload_config") {
        Some("Recarregar config")
    } else if str_eq(key, "tray.register_tel") {
        Some("Registar como gestor tel:")
    } else if str_eq(key, "tray.devtools") {
        Some("DevTools (F12)")
    } else if str_eq(key, "tray.open_config") {
        Some("Abrir configuração")
    } else if str_eq(key, "tray.quit") {
        Some("Sair")
    } else if str_eq(key, "popup.send_mail") {
        Some("✉  Enviar email de retorno")
    } else if str_eq(key, "mailto.subject") {
        Some("Por favor retornar: {name} {number}")
    } else if str_eq(key, "hist.select_multiple") {
        Some("Selecionar múltiplos")
    } else if str_eq(key, "hist.all") {
        Some("Todos")
    } else if str_eq(key, "hist.selected_count") {
        Some("selecionado(s)")
    } else if str_eq(key, "hist.delete_selected") {
        Some("Eliminar selecionados")
    } else if str_eq(key, "hist.cancel") {
        Some("Cancelar")
    } else if str_eq(key, "hist.confirm_delete") {
        Some("Deseja eliminar {count} entradas?")
    } else if str_eq(key, "hist.preparing") {
        Some("A preparar...")
    } else if str_eq(key, "hist.deleting") {
        Some("A eliminar")
    } else if str_eq(key, "hist.deleted") {
        Some("eliminado(s)!")
    } else if str_eq(key, "setup.title") {
        Some("Configurar 4dy Client")
    } else if str_eq(key, "setup.prompt") {
        Some("Introduza o URL do seu cliente web 3CX:")
    } else if str_eq(key, "setup.placeholder") {
        Some("https://minha-empresa.3cx.pt")
    } else if str_eq(key, "setup.error_empty") {
        Some("Introduza um URL.")
    } else if str_eq(key, "setup.error_url") {
        Some("Introduza um URL válido")
    } else if str_eq(key, "setup.save_error") {
        Some("Erro ao guardar:")
    } else if str_eq(key, "setup.button") {
        Some("Continuar")
    } else if str_eq(key, "setup.saving") {
        Some("A guardar...")
    } else {
        None
    }
}

/// The PL table: the text stored under `key`, if any.
pub open spec fn pl_entry(key: Seq<char>) -> Option<Seq<char>> {
    if key == "tray.show"@ {
        Some("Pokaż"@)
    } else if key == "tray.reload_config"@ {
        Some("Przeładuj konfigurację"@)
    } else if key == "tray.register_tel"@ {
        Some("Zarejestruj jako obsługę tel:"@)
    } else if key == "tray.devtools"@ {
        Some("DevTools (F12)"@)
    } else if key == "tray.open_config"@ {
        Some("Otwórz konfigurację"@)
    } else if key == "tray.quit"@ {
        Some("Zakończ"@)
    } else if key == "popup.send_mail"@ {
        Some("✉  Wyślij mail zwrotny"@)
    } else if key == "mailto.subject"@ {
        Some("Proszę oddzwonić: {name} {number}"@)
    } else if key == "hist.select_multiple"@ {
        Some("Zaznacz wiele"@)
    } else if key == "hist.all"@ {
        Some("Wszystkie"@)
    } else if key == "hist.selected_count"@ {
        Some("zaznaczono"@)
    } else if key == "hist.delete_selected"@ {
        Some("Usuń zaznaczone"@)
    } else if key == "hist.cancel"@ {
        Some("Anuluj"@)
    } else if key == "hist.confirm_delete"@ {
        Some("Czy chcesz usunąć {count} wpisów?"@)
    } else if key == "hist.preparing"@ {
        Some("Przygotowywanie..."@)
    } else if key == "hist.deleting"@ {
        Some("Usuwanie"@)
    } else if key == "hist.deleted"@ {
        Some("usunięto!"@)
    } else if key == "setup.title"@ {
        Some("Konfiguracja 4dy Client"@)
    } else if key == "setup.prompt"@ {
        Some("Podaj URL klienta webowego 3CX:"@)
    } else if key == "setup.placeholder"@ {
        Some("https://moja-firma.3cx.pl"@)
    } else if key == "setup.error_empty"@ {
        Some("Podaj URL."@)
    } else if key == "setup.error_url"@ {
        Some("Podaj prawidłowy URL"@)
    } else if key == "setup.save_error"@ {
        Some("Błąd zapisu:"@)
    } else if key == "setup.button"@ {
        Some("Dalej"@)
    } else if key == "setup.saving"@ {
        Some("Zapisywanie..."@)
    } else {
        None
    }
}

/// Looks `key` up in the PL table.
pub fn pl_lookup(key: &str) -> (r: Option<&'static str>)
    ensures
        match r {
            Some(v) => pl_entry(key@) == Some(v@),
            None => pl_entry(key@) is None,
        },
{
    if str_eq(key, "tray.show") {
        Some("Pokaż")
    } else if str_eq(key, "tray.reload_config") {
        Some("Przeładuj konfigurację")
    } else if str_eq(key, "tray.register_tel") {
        Some("Zarejestruj jako obsługę tel:")
    } else if str_eq(key, "tray.devtools") {
        Some("DevTools (F12)")
    } else if str_eq(key, "tray.open_config") {
        Some("Otwórz konfigurację")
    } else if str_eq(key, "tray.quit") {
        Some("Zakończ")
    } else if str_eq(key, "popup.send_mail") {
        Some("✉  Wyślij mail zwrotny")
    } else if str_eq(key, "mailto.subject") {
        Some("Proszę oddzwonić: {name} {number}")
    } else if str_eq(key, "hist.select_multiple") {
        Some("Zaznacz wiele")
    } else if str_eq(key, "hist.all") {
        Some("Wszystkie")
    } else if str_eq(key, "hist.selected_count") {
        Some("zaznaczono")
    } else if str_eq(key, "hist.delete_selected") {
        Some("Usuń zaznaczone")
    } else if str_eq(key, "hist.cancel") {
        Some("Anuluj")
    } else if str_eq(key, "hist.confirm_delete") {
        Some("Czy chcesz usunąć {count} wpisów?")
    } else if str_eq(key, "hist.preparing") {
        Some("Przygotowywanie...")
    } else if str_eq(key, "hist.deleting") {
        Some("Usuwanie")
    } else if str_eq(key, "hist.deleted") {
        Some("usunięto!")
    } else if str_eq(key, "setup.title") {
        Some("Konfiguracja 4dy Client")
    } else if str_eq(key, "setup.prompt") {
        Some("Podaj URL klienta webowego 3CX:")
    } else if str_eq(key, "setup.placeholder") {
        Some("https://moja-firma.3cx.pl")
    } else if str_eq(key, "setup.error_empty") {
        Some("Podaj URL.")
    } else if str_eq(key, "setup.error_url") {
        Some("Podaj prawidłowy URL")
    } else if str_eq(key, "setup.save_error") {
        Some("Błąd zapisu:")
    } else if str_eq(key, "setup.button") {
        Some("Dalej")
    } else if str_eq(key, "setup.saving") {
        Some("Zapisywanie...")
    } else {
        None
    }
}

/// The CS table: the text stored under `key`, if any.
pub open spec fn cs_entry(key: Seq<char>) -> Option<Seq<char>> {
    if key == "tray.show"@ {
        Some("Zobrazit"@)
    } else if key == "tray.reload_config"@ {
        Some("Znovu načíst konfiguraci"@)
    } else if key == "tray.register_tel"@ {
        Some("Zaregistrovat jako tel: handler"@)
    } else if key == "tray.devtools"@ {
        Some("DevTools (F12)"@)
    } else if key == "tray.open_config"@ {
        Some("Otevřít konfiguraci"@)
    } else if key == "tray.quit"@ {
        Some("Ukončit"@)
    } else if key == "popup.send_mail"@ {
        Some("✉  Odeslat zpětný e-mail"@)
    } else if key == "mailto.subject"@ {
        Some("Prosím zavolejte zpět: {name} {number}"@)
    } else if key == "hist.select_multiple"@ {
        Some("Vybrat více"@)
    } else if key == "hist.all"@ {
        Some("Vše"@)
    } else if key == "hist.selected_count"@ {
        Some("vybráno"@)
    } else if key == "hist.delete_selected"@ {
        Some("Smazat vybrané"@)
    } else if key == "hist.cancel"@ {
        Some("Zrušit"@)
    } else if key == "hist.confirm_delete"@ {
        Some("Chcete smazat {count} položek?"@)
    } else if key == "hist.preparing"@ {
        Some("Příprava..."@)
    } else if key == "hist.deleting"@ {
        Some("Mazání"@)
    } else if key == "hist.deleted"@ {
        Some("smazáno!"@)
    } else if key == "setup.title"@ {
        Some("Nastavení 4dy Client"@)
    } else if key == "setup.prompt"@ {
        Some("Zadejte URL vašeho 3CX webového klienta:"@)
    } else if key == "setup.placeholder"@ {
        Some("https://moje-firma.3cx.cz"@)
    } else if key == "setup.error_empty"@ {
        Some("Zadejte URL."@)
    } else if key == "setup.error_url"@ {
        Some("Zadejte platnou URL"@)
    } else if key == "setup.save_error"@ {
        Some("Chyba při ukládání:"@)
    } else if key == "setup.button"@ {
        Some("Pokračovat"@)
    } else if key == "setup.saving"@ {
        Some("Ukládání..."@)
    } else {
        None
    }
}

/// Looks `key` up in the CS table.
pub fn cs_lookup(key: &str) -> (r: Option<&'static str>)
    ensures
        match r {
            Some(v) => cs_entry(key@) == Some(v@),
            None => cs_entry(key@) is None,
        },
{
    if str_eq(key, "tray.show") {
        Some("Zobrazit")
    } else if str_eq(key, "tray.reload_config") {
        Some("Znovu načíst konfiguraci")
    } else if str_eq(key, "tray.register_tel") {
        Some("Zaregistrovat jako tel: handler")
    } else if str_eq(key, "tray.devtools") {
        Some("DevTools (F12)")
    } else if str_eq(key, "tray.open_config") {
        Some("Otevřít konfiguraci")
    } else if str_eq(key, "tray.quit") {
        Some("Ukončit")
    } else if str_eq(key, "popup.send_mail") {
        Some("✉  Odeslat zpětný e-mail")
    } else if str_eq(key, "mailto.subject") {
        Some("Prosím zavolejte zpět: {name} {number}")
    } else if str_eq(key, "hist.select_multiple") {
        Some("Vybrat více")
    } else if str_eq(key, "hist.all") {
        Some("Vše")
    } else if str_eq(key, "hist.selected_count") {
        Some("vybráno")
    } else if str_eq(key, "hist.delete_selected") {
        Some("Smazat vybrané")
    } else if str_eq(key, "hist.cancel") {
        Some("Zrušit")
    } else if str_eq(key, "hist.confirm_delete") {
        Some("Chcete smazat {count} položek?")
    } else if str_eq(key, "hist.preparing") {
        Some("Příprava...")
    } else if str_eq(key, "hist.deleting") {
        Some("Mazání")
    } else if str_eq(key, "hist.deleted") {
        Some("smazáno!")
    } else if str_eq(key, "setup.title") {
        Some("Nastavení 4dy Client")
    } else if str_eq(key, "setup.prompt") {
        Some("Zadejte URL vašeho 3CX webového klienta:")
    } else if str_eq(key, "setup.placeholder") {
        Some("https://moje-firma.3cx.cz")
    } else if str_eq(key, "setup.error_empty") {
        Some("Zadejte URL.")
    } else if str_eq(key, "setup.error_url") {
        Some("Zadejte platnou URL")
    } else if str_eq(key, "setup.save_error") {
        Some("Chyba při ukládání:")
    } else if str_eq(key, "setup.button") {
        Some("Pokračovat")
    } else if str_eq(key, "setup.saving") {
        Some("Ukládání...")
    } else {
        None
    }
}

/// The HU table: the text stored under `key`, if any.
pub open spec fn hu_entry(key: Seq<char>) -> Option<Seq<char>> {
    if key == "tray.show"@ {
        Some("Megjelenítés"@)
    } else if key == "tray.reload_config"@ {
        Some("Konfiguráció újratöltése"@)
    } else if key == "tray.register_tel"@ {
        Some("Regisztráció tel: kezelőként"@)
    } else if key == "tray.devtools"@ {
        Some("DevTools (F12)"@)
    } else if key == "tray.open_config"@ {
        Some("Konfiguráció megnyitása"@)
    } else if key == "tray.quit"@ {
        Some("Kilépés"@)
    } else if key == "popup.send_mail"@ {
        Some("✉  Visszahívás e-mail küldése"@)
    } else if key == "mailto.subject"@ {
        Some("Kérjük hívjon vissza: {name} {number}"@)
    } else if key == "hist.select_multiple"@ {
        Some("Több kijelölése"@)
    } else if key == "hist.all"@ {
        Some("Összes"@)
    } else if key == "hist.selected_count"@ {
        Some("kijelölve"@)
    } else if key == "hist.delete_selected"@ {
        Some("Kijelöltek törlése"@)
    } else if key == "hist.cancel"@ {
        Some("Mégse"@)
    } else if key == "hist.confirm_delete"@ {
        Some("{count} bejegyzés törlése?"@)
    } else if key == "hist.preparing"@ {
        Some("Előkészítés..."@)
    } else if key == "hist.deleting"@ {
        Some("Törlés"@)
    } else if key == "hist.deleted"@ {
        Some("törölve!"@)
    } else if key == "setup.title"@ {
        Some("4dy Client beállítása"@)
    } else if key == "setup.prompt"@ {
        Some("Adja meg a 3CX webes kliens URL-jét:"@)
    } else if key == "setup.placeholder"@ {
        Some("https://cegem.3cx.hu"@)
    } else if key == "setup.error_empty"@ {
        Some("Adjon meg egy URL-t."@)
    } else if key == "setup.error_url"@ {
        Some("Érvényes URL-t adjon meg"@)
    } else if key == "setup.save_error"@ {
        Some("Mentési hiba:"@)
    } else if key == "setup.button"@ {
        Some("Tovább"@)
    } else if key == "setup.saving"@ {
        Some("Mentés..."@)
    } else {
        None
    }
}

/// Looks `key` up in the HU table.
pub fn hu_lookup(key: &str) -> (r: Option<&'static str>)
    ensures
        match r {
            Some(v) => hu_entry(key@) == Some(v@),
            None => hu_entry(key@) is None,
        },
{
    if str_eq(key, "tray.show") {
        Some("Megjelenítés")
    } else if str_eq(key, "tray.reload_config") {
        Some("Konfiguráció újratöltése")
    } else if str_eq(key, "tray.register_tel") {
        Some("Regisztráció tel: kezelőként")
    } else if str_eq(key, "tray.devtools") {
        Some("DevTools (F12)")
    } else if str_eq(key, "tray.open_config") {
        Some("Konfiguráció megnyitása")
    } else if str_eq(key, "tray.quit") {
        Some("Kilépés")
    } else if str_eq(key, "popup.send_mail") {
        Some("✉  Visszahívás e-mail küldése")
    } else if str_eq(key, "mailto.subject") {
        Some("Kérjük hívjon vissza: {name} {number}")
    } else if str_eq(key, "hist.select_multiple") {
        Some("Több kijelölése")
    } else if str_eq(key, "hist.all") {
        Some("Összes")
    } else if str_eq(key, "hist.selected_count") {
        Some("kijelölve")
    } else if str_eq(key, "hist.delete_selected") {
        Some("Kijelöltek törlése")
    } else if str_eq(key, "hist.cancel") {
        Some("Mégse")
    } else if str_eq(key, "hist.confirm_delete") {
        Some("{count} bejegyzés törlése?")
    } else if str_eq(key, "hist.preparing") {
        Some("Előkészítés...")
    } else if str_eq(key, "hist.deleting") {
        Some("Törlés")
    } else if str_eq(key, "hist.deleted") {
        Some("törölve!")
    } else if str_eq(key, "setup.title") {
        Some("4dy Client beállítása")
    } else if str_eq(key, "setup.prompt") {
        Some("Adja meg a 3CX webes kliens URL-jét:")
    } else if str_eq(key, "setup.placeholder") {
        Some("https://cegem.3cx.hu")
    } else if str_eq(key, "setup.error_empty") {
        Some("Adjon meg egy URL-t.")
    } else if str_eq(key, "setup.error_url") {
        Some("Érvényes URL-t adjon meg")
    } else if str_eq(key, "setup.save_error") {
        Some("Mentési hiba:")
    } else if str_eq(key, "setup.button") {
        Some("Tovább")
    } else if str_eq(key, "setup.saving") {
        Some("Mentés...")
    } else {
        None
    }
}

/// The SK table: the text stored under `key`, if any.
pub open spec fn sk_entry(key: Seq<char>) -> Option<Seq<char>> {
    if key == "tray.show"@ {
        Some("Zobraziť"@)
    } else if key == "tray.reload_config"@ {
        Some("Znovu načítať konfiguráciu"@)
    } else if key == "tray.register_tel"@ {
        Some("Zaregistrovať ako tel: handler"@)
    } else if key == "tray.devtools"@ {
        Some("DevTools (F12)"@)
    } else if key == "tray.open_config"@ {
        Some("Otvoriť konfiguráciu"@)
    } else if key == "tray.quit"@ {
        Some("Ukončiť"@)
    } else if key == "popup.send_mail"@ {
        Some("✉  Odoslať spätný e-mail"@)
    } else if key == "mailto.subject"@ {
        Some("Prosím zavolajte späť: {name} {number}"@)
    } else if key == "hist.select_multiple"@ {
        Some("Vybrať viacero"@)
    } else if key == "hist.all"@ {
        Some("Všetko"@)
    } else if key == "hist.selected_count"@ {
        Some("vybraných"@)
    } else if key == "hist.delete_selected"@ {
        Some("Zmazať vybrané"@)
    } else if key == "hist.cancel"@ {
        Some("Zrušiť"@)
    } else if key == "hist.confirm_delete"@ {
        Some("Chcete zmazať {count} položiek?"@)
    } else if key == "hist.preparing"@ {
        Some("Príprava..."@)
    } else if key == "hist.deleting"@ {
        Some("Mazanie"@)
    } else if key == "hist.deleted"@ {
        Some("zmazaných!"@)
    } else if key == "setup.title"@ {
        Some("Nastavenie 4dy Client"@)
    } else if key == "setup.prompt"@ {
        Some("Zadajte URL vášho 3CX webového klienta:"@)
    } else if key == "setup.placeholder"@ {
        Some("https://moja-firma.3cx.sk"@)
    } else if key == "setup.error_empty"@ {
        Some("Zadajte URL."@)
    } else if key == "setup.error_url"@ {
        Some("Zadajte platnú URL"@)
    } else if key == "setup.save_error"@ {
        Some("Chyba pri ukladaní:"@)
    } else if key == "setup.button"@ {
        Some("Pokračovať"@)
    } else if key == "setup.saving"@ {
        Some("Ukladanie..."@)
    } else {
        None
    }
}

/// Looks `key` up in the SK table.
pub fn sk_lookup(key: &str) -> (r: Option<&'static str>)
    ensures
        match r {
            Some(v) => sk_entry(key@) == Some(v@),
            None => sk_entry(key@) is None,
        },
{
    if str_eq(key, "tray.show") {
        Some("Zobraziť")
    } else if str_eq(key, "tray.reload_config") {
        Some("Znovu načítať konfiguráciu")
    } else if str_eq(key, "tray.register_tel") {
        Some("Zaregistrovať ako tel: handler")
    } else if str_eq(key, "tray.devtools") {
        Some("DevTools (F12)")
    } else if str_eq(key, "tray.open_config") {
        Some("Otvoriť konfiguráciu")
    } else if str_eq(key, "tray.quit") {
        Some("Ukončiť")
    } else if str_eq(key, "popup.send_mail") {
        Some("✉  Odoslať spätný e-mail")
    } else if str_eq(key, "mailto.subject") {
        Some("Prosím zavolajte späť: {name} {number}")
    } else if str_eq(key, "hist.select_multiple") {
        Some("Vybrať viacero")
    } else if str_eq(key, "hist.all") {
        Some("Všetko")
    } else if str_eq(key, "hist.selected_count") {
        Some("vybraných")
    } else if str_eq(key, "hist.delete_selected") {
        Some("Zmazať vybrané")
    } else if str_eq(key, "hist.cancel") {
        Some("Zrušiť")
    } else if str_eq(key, "hist.confirm_delete") {
        Some("Chcete zmazať {count} položiek?")
    } else if str_eq(key, "hist.preparing") {
        Some("Príprava...")
    } else if str_eq(key, "hist.deleting") {
        Some("Mazanie")
    } else if str_eq(key, "hist.deleted") {
        Some("zmazaných!")
    } else if str_eq(key, "setup.title") {
        Some("Nastavenie 4dy Client")
    } else if str_eq(key, "setup.prompt") {
        Some("Zadajte URL vášho 3CX webového klienta:")
    } else if str_eq(key, "setup.placeholder") {
        Some("https://moja-firma.3cx.sk")
    } else if str_eq(key, "setup.error_empty") {
        Some("Zadajte URL.")
    } else if str_eq(key, "setup.error_url") {
        Some("Zadajte platnú URL")
    } else if str_eq(key, "setup.save_error") {
        Some("Chyba pri ukladaní:")
    } else if str_eq(key, "setup.button") {
        Some("Pokračovať")
    } else if str_eq(key, "setup.saving") {
        Some("Ukladanie...")
    } else {
        None
    }
}

/// The SL table: the text stored under `key`, if any.
pub open spec fn sl_entry(key: Seq<char>) -> Option<Seq<char>> {
    if key == "tray.show"@ {
        Some("Prikaži"@)
    } else if key == "tray.reload_config"@ {
        Some("Ponovno naloži konfiguracijo"@)
    } else if key == "tray.register_tel"@ {
        Some("Registriraj kot tel: handler"@)
    } else if key == "tray.devtools"@ {
        Some("DevTools (F12)"@)
    } else if key == "tray.open_config"@ {
        Some("Odpri konfiguracijo"@)
    } else if key == "tray.quit"@ {
        Some("Izhod"@)
    } else if key == "popup.send_mail"@ {
        Some("✉  Pošlji povratno e-pošto"@)
    } else if key == "mailto.subject"@ {
        Some("Prosimo pokličite nazaj: {name} {number}"@)
    } else if key == "hist.select_multiple"@ {
        Some("Izberi več"@)
    } else if key == "hist.all"@ {
        Some("Vse"@)
    } else if key == "hist.selected_count"@ {
        Some("izbranih"@)
    } else if key == "hist.delete_selected"@ {
        Some("Izbriši izbrane"@)
    } else if key == "hist.cancel"@ {
        Some("Prekliči"@)
    } else if key == "hist.confirm_delete"@ {
        Some("Ali želite izbrisati {count} vnosov?"@)
    } else if key == "hist.preparing"@ {
        Some("Priprava..."@)
    } else if key == "hist.deleting"@ {
        Some("Brisanje"@)
    } else if key == "hist.deleted"@ {
        Some("izbrisanih!"@)
    } else if key == "setup.title"@ {
        Some("Nastavitev 4dy Client"@)
    } else if key == "setup.prompt"@ {
        Some("Vnesite URL vašega 3CX spletnega odjemalca:"@)
    } else if key == "setup.placeholder"@ {
        Some("https://moje-podjetje.3cx.si"@)
    } else if key == "setup.error_empty"@ {
        Some("Vnesite URL."@)
    } else if key == "setup.error_url"@ {
        Some("Vnesite veljavni URL"@)
    } else if key == "setup.save_error"@ {
        Some("Napaka pri shranjevanju:"@)
    } else if key == "setup.button"@ {
        Some("Nadaljuj"@)
    } else if key == "setup.saving"@ {
        Some("Shranjevanje..."@)
    } else {
        None
    }
}

/// Looks `key` up in the SL table.
pub fn sl_lookup(key: &str) -> (r: Option<&'static str>)
    ensures
        match r {
            Some(v) => sl_entry(key@) == Some(v@),
            None => sl_entry(key@) is None,
        },
{
    if str_eq(key, "tray.show") {
        Some("Prikaži")
    } else if str_eq(key, "tray.reload_config") {
        Some("Ponovno naloži konfiguracijo")
    } else if str_eq(key, "tray.register_tel") {
        Some("Registriraj kot tel: handler")
    } else if str_eq(key, "tray.devtools") {
        Some("DevTools (F12)")
    } else if str_eq(key, "tray.open_config") {
        Some("Odpri konfiguracijo")
    } else if str_eq(key, "tray.quit") {
        Some("Izhod")
    } else if str_eq(key, "popup.send_mail") {
        Some("✉  Pošlji povratno e-pošto")
    } else if str_eq(key, "mailto.subject") {
        Some("Prosimo pokličite nazaj: {name} {number}")
    } else if str_eq(key, "hist.select_multiple") {
        Some("Izberi več")
    } else if str_eq(key, "hist.all") {
        Some("Vse")
    } else if str_eq(key, "hist.selected_count") {
        Some("izbranih")
    } else if str_eq(key, "hist.delete_selected") {
        Some("Izbriši izbrane")
    } else if str_eq(key, "hist.cancel") {
        Some("Prekliči")
    } else if str_eq(key, "hist.confirm_delete") {
        Some("Ali želite izbrisati {count} vnosov?")
    } else if str_eq(key, "hist.preparing") {
        Some("Priprava...")
    } else if str_eq(key, "hist.deleting") {
        Some("Brisanje")
    } else if str_eq(key, "hist.deleted") {
        Some("izbrisanih!")
    } else if str_eq(key, "setup.title") {
        Some("Nastavitev 4dy Client")
    } else if str_eq(key, "setup.prompt") {
        Some("Vnesite URL vašega 3CX spletnega odjemalca:")
    } else if str_eq(key, "setup.placeholder") {
        Some("https://moje-podjetje.3cx.si")
    } else if str_eq(key, "setup.error_empty") {
        Some("Vnesite URL.")
    } else if str_eq(key, "setup.error_url") {
        Some("Vnesite veljavni URL")
    } else if str_eq(key, "setup.save_error") {
        Some("Napaka pri shranjevanju:")
    } else if str_eq(key, "setup.button") {
        Some("Nadaljuj")
    } else if str_eq(key, "setup.saving") {
        Some("Shranjevanje...")
    } else {
        None
    }
}

/// The RO table: the text stored under `key`, if any.
pub open spec fn ro_entry(key: Seq<char>) -> Option<Seq<char>> {
    if key == "tray.show"@ {
        Some("Afișare"@)
    } else if key == "tray.reload_config"@ {
        Some("Reîncarcă config"@)
    } else if key == "tray.register_tel"@ {
        Some("Înregistrează ca handler tel:"@)
    } else if key == "tray.devtools"@ {
        Some("DevTools (F12)"@)
    } else if key == "tray.open_config"@ {
        Some("Deschide configurația"@)
    } else if key == "tray.quit"@ {
        Some("Ieșire"@)
    } else if key == "popup.send_mail"@ {
        Some("✉  Trimite email de reapelare"@)
    } else if key == "mailto.subject"@ {
        Some("Vă rugăm sunați înapoi: {name} {number}"@)
    } else if key == "hist.select_multiple"@ {
        Some("Selectare multiplă"@)
    } else if key == "hist.all"@ {
        Some("Toate"@)
    } else if key == "hist.selected_count"@ {
        Some("selectate"@)
    } else if key == "hist.delete_selected"@ {
        Some("Șterge selectate"@)
    } else if key == "hist.cancel"@ {
        Some("Anulare"@)
    } else if key == "hist.confirm_delete"@ {
        Some("Doriți să ștergeți {count} intrări?"@)
    } else if key == "hist.preparing"@ {
        Some("Pregătire..."@)
    } else if key == "hist.deleting"@ {
        Some("Ștergere"@)
    } else if key == "hist.deleted"@ {
        Some("șterse!"@)
    } else if key == "setup.title"@ {
        Some("Configurare 4dy Client"@)
    } else if key == "setup.prompt"@ {
        Some("Introduceți URL-ul clientului web 3CX:"@)
    } else if key == "setup.placeholder"@ {
        Some("https://firma-mea.3cx.ro"@)
    } else if key == "setup.error_empty"@ {
        Some("Introduceți un URL."@)
    } else if key == "setup.error_url"@ {
        Some("Introduceți un URL valid"@)
    } else if key == "setup.save_error"@ {
        Some("Eroare la salvare:"@)
    } else if key == "setup.button"@ {
        Some("Continuare"@)
    } else if key == "setup.saving"@ {
        Some("Salvare..."@)
    } else {
        None
    }
}

/// Looks `key` up in the RO table.
pub fn ro_lookup(key: &str) -> (r: Option<&'static str>)
    ensures
        match r {
            Some(v) => ro_entry(key@) == Some(v@),
            None => ro_entry(key@) is None,
        },
{
    if str_eq(key, "tray.show") {
        Some("Afișare")
    } else if str_eq(key, "tray.reload_config") {
        Some("Reîncarcă config")
    } else if str_eq(key, "tray.register_tel") {
        Some("Înregistrează ca handler tel:")
    } else if str_eq(key, "tray.devtools") {
        Some("DevTools (F12)")
    } else if str_eq(key, "tray.open_config") {
        Some("Deschide configurația")
    } else if str_eq(key, "tray.quit") {
        Some("Ieșire")
    } else if str_eq(key, "popup.send_mail") {
        Some("✉  Trimite email de reapelare")
    } else if str_eq(key, "mailto.subject") {
        Some("Vă rugăm sunați înapoi: {name} {number}")
    } else if str_eq(key, "hist.select_multiple") {
        Some("Selectare multiplă")
    } else if str_eq(key, "hist.all") {
        Some("Toate")
    } else if str_eq(key, "hist.selected_count") {
        Some("selectate")
    } else if str_eq(key, "hist.delete_selected") {
        Some("Șterge selectate")
    } else if str_eq(key, "hist.cancel") {
        Some("Anulare")
    } else if str_eq(key, "hist.confirm_delete") {
        Some("Doriți să ștergeți {count} intrări?")
    } else if str_eq(key, "hist.preparing") {
        Some("Pregătire...")
    } else if str_eq(key, "hist.deleting") {
        Some("Ștergere")
    } else if str_eq(key, "hist.deleted") {
        Some("șterse!")
    } else if str_eq(key, "setup.title") {
        Some("Configurare 4dy Client")
    } else if str_eq(key, "setup.prompt") {
        Some("Introduceți URL-ul clientului web 3CX:")
    } else if str_eq(key, "setup.placeholder") {
        Some("https://firma-mea.3cx.ro")
    } else if str_eq(key, "setup.error_empty") {
        Some("Introduceți un URL.")
    } else if str_eq(key, "setup.error_url") {
        Some("Introduceți un URL valid")
    } else if str_eq(key, "setup.save_error") {
        Some("Eroare la salvare:")
    } else if str_eq(key, "setup.button") {
        Some("Continuare")
    } else if str_eq(key, "setup.saving") {
        Some("Salvare...")
    } else {
        None
    }
}

/// The BG table: the text stored under `key`, if any.
pub open spec fn bg_entry(key: Seq<char>) -> Option<Seq<char>> {
    if key == "tray.show"@ {
        Some("Покажи"@)
    } else if key == "tray.reload_config"@ {
        Some("Презареди конфигурацията"@)
    } else if key == "tray.register_tel"@ {
        Some("Регистрирай като tel: handler"@)
    } else if key == "tray.devtools"@ {
        Some("DevTools (F12)"@)
    } else if key == "tray.open_config"@ {
        Some("Отвори конфигурацията"@)
    } else if key == "tray.quit"@ {
        Some("Изход"@)
    } else if key == "popup.send_mail"@ {
        Some("✉  Изпрати имейл за обратно обаждане"@)
    } else if key == "mailto.subject"@ {
        Some("Моля обадете се обратно: {name} {number}"@)
    } else if key == "hist.select_multiple"@ {
        Some("Избери няколко"@)
    } else if key == "hist.all"@ {
        Some("Всички"@)
    } else if key == "hist.selected_count"@ {
        Some("избрани"@)
    } else if key == "hist.delete_selected"@ {
        Some("Изтрий избраните"@)
    } else if key == "hist.cancel"@ {
        Some("Отказ"@)
    } else if key == "hist.confirm_delete"@ {
        Some("Искате ли да изтриете {count} записа?"@)
    } else if key == "hist.preparing"@ {
        Some("Подготовка..."@)
    } else if key == "hist.deleting"@ {
        Some("Изтриване"@)
    } else if key == "hist.deleted"@ {
        Some("изтрити!"@)
    } else if key == "setup.title"@ {
        Some("Настройка на 4dy Client"@)
    } else if key == "setup.prompt"@ {
        Some("Въведете URL на вашия 3CX уеб клиент:"@)
    } else if key == "setup.placeholder"@ {
        Some("https://moiata-firma.3cx.bg"@)
    } else if key == "setup.error_empty"@ {
        Some("Въведете URL."@)
    } else if key == "setup.error_url"@ {
        Some("Въведете валиден URL"@)
    } else if key == "setup.save_error"@ {
        Some("Грешка при запазване:"@)
    } else if key == "setup.button"@ {
        Some("Продължи"@)
    } else if key == "setup.saving"@ {
        Some("Запазване..."@)
    } else {
        None
    }
}

/// Looks `key` up in the BG table.
pub fn bg_lookup(key: &str) -> (r: Option<&'static str>)
    ensures
        match r {
            Some(v) => bg_entry(key@) == Some(v@),
            None => bg_entry(key@) is None,
        },
{
    if str_eq(key, "tray.show") {
        Some("Покажи")
    } else if str_eq(key, "tray.reload_config") {
        Some("Презареди конфигурацията")
    } else if str_eq(key, "tray.register_tel") {
        Some("Регистрирай като tel: handler")
    } else if str_eq(key, "tray.devtools") {
        Some("DevTools (F12)")
    } else if str_eq(key, "tray.open_config") {
        Some("Отвори конфигурацията")
    } else if str_eq(key, "tray.quit") {
        Some("Изход")
    } else if str_eq(key, "popup.send_mail") {
        Some("✉  Изпрати имейл за обратно обаждане")
    } else if str_eq(key, "mailto.subject") {
        Some("Моля обадете се обратно: {name} {number}")
    } else if str_eq(key, "hist.select_multiple") {
        Some("Избери няколко")
    } else if str_eq(key, "hist.all") {
        Some("Всички")
    } else if str_eq(key, "hist.selected_count") {
        Some("избрани")
    } else if str_eq(key, "hist.delete_selected") {
        Some("Изтрий избраните")
    } else if str_eq(key, "hist.cancel") {
        Some("Отказ")
    } else if str_eq(key, "hist.confirm_delete") {
        Some("Искате ли да изтриете {count} записа?")
    } else if str_eq(key, "hist.preparing") {
        Some("Подготовка...")
    } else if str_eq(key, "hist.deleting") {
        Some("Изтриване")
    } else if str_eq(key, "hist.deleted") {
        Some("изтрити!")
    } else if str_eq(key, "setup.title") {
        Some("Настройка на 4dy Client")
    } else if str_eq(key, "setup.prompt") {
        Some("Въведете URL на вашия 3CX уеб клиент:")
    } else if str_eq(key, "setup.placeholder") {
        Some("https://moiata-firma.3cx.bg")
    } else if str_eq(key, "setup.error_empty") {
        Some("Въведете URL.")
    } else if str_eq(key, "setup.error_url") {
        Some("Въведете валиден URL")
    } else if str_eq(key, "setup.save_error") {
        Some("Грешка при запазване:")
    } else if str_eq(key, "setup.button") {
        Some("Продължи")
    } else if str_eq(key, "setup.saving") {
        Some("Запазване...")
    } else {
        None
    }
}

/// The HR table: the text stored under `key`, if any.
pub open spec fn hr_entry(key: Seq<char>) -> Option<Seq<char>> {
    if key == "tray.show"@ {
        Some("Prikaži"@)
    } else if key == "tray.reload_config"@ {
        Some("Ponovno učitaj konfiguraciju"@)
    } else if key == "tray.register_tel"@ {
        Some("Registriraj kao tel: handler"@)
    } else if key == "tray.devtools"@ {
        Some("DevTools (F12)"@)
    } else if key == "tray.open_config"@ {
        Some("Otvori konfiguraciju"@)
    } else if key == "tray.quit"@ {
        Some("Izlaz"@)
    } else if key == "popup.send_mail"@ {
        Some("✉  Pošalji povratni e-mail"@)
    } else if key == "mailto.subject"@ {
        Some("Molimo nazovite: {name} {number}"@)
    } else if key == "hist.select_multiple"@ {
        Some("Odaberi više"@)
    } else if key == "hist.all"@ {
        Some("Sve"@)
    } else if key == "hist.selected_count"@ {
        Some("odabrano"@)
    } else if key == "hist.delete_selected"@ {
        Some("Obriši odabrane"@)
    } else if key == "hist.cancel"@ {
        Some("Odustani"@)
    } else if key == "hist.confirm_delete"@ {
        Some("Želite li obrisati {count} unosa?"@)
    } else if key == "hist.preparing"@ {
        Some("Priprema..."@)
    } else if key == "hist.deleting"@ {
        Some("Brisanje"@)
    } else if key == "hist.deleted"@ {
        Some("obrisano!"@)
    } else if key == "setup.title"@ {
        Some("Postavljanje 4dy Client"@)
    } else if key == "setup.prompt"@ {
        Some("Unesite URL svog 3CX web klijenta:"@)
    } else if key == "setup.placeholder"@ {
        Some("https://moja-tvrtka.3cx.hr"@)
    } else if key == "setup.error_empty"@ {
        Some("Unesite URL."@)
    } else if key == "setup.error_url"@ {
        Some("Unesite valjani URL"@)
    } else if key == "setup.save_error"@ {
        Some("Greška pri spremanju:"@)
    } else if key == "setup.button"@ {
        Some("Nastavi"@)
    } else if key == "setup.saving"@ {
        Some("Spremanje..."@)
    } else {
        None
    }
}

/// Looks `key` up in the HR table.
pub fn hr_lookup(key: &str) -> (r: Option<&'static str>)
    ensures
        match r {
            Some(v) => hr_entry(key@) == Some(v@),
            None => hr_entry(key@) is None,
        },
{
    if str_eq(key, "tray.show") {
        Some("Prikaži")
    } else if str_eq(key, "tray.reload_config") {
        Some("Ponovno učitaj konfiguraciju")
    } else if str_eq(key, "tray.register_tel") {
        Some("Registriraj kao tel: handler")
    } else if str_eq(key, "tray.devtools") {
        Some("DevTools (F12)")
    } else if str_eq(key, "tray.open_config") {
        Some("Otvori konfiguraciju")
    } else if str_eq(key, "tray.quit") {
        Some("Izlaz")
    } else if str_eq(key, "popup.send_mail") {
        Some("✉  Pošalji povratni e-mail")
    } else if str_eq(key, "mailto.subject") {
        Some("Molimo nazovite: {name} {number}")
    } else if str_eq(key, "hist.select_multiple") {
        Some("Odaberi više")
    } else if str_eq(key, "hist.all") {
        Some("Sve")
    } else if str_eq(key, "hist.selected_count") {
        Some("odabrano")
    } else if str_eq(key, "hist.delete_selected") {
        Some("Obriši odabrane")
    } else if str_eq(key, "hist.cancel") {
        Some("Odustani")
    } else if str_eq(key, "hist.confirm_delete") {
        Some("Želite li obrisati {count} unosa?")
    } else if str_eq(key, "hist.preparing") {
        Some("Priprema...")
    } else if str_eq(key, "hist.deleting") {
        Some("Brisanje")
    } else if str_eq(key, "hist.deleted") {
        Some("obrisano!")
    } else if str_eq(key, "setup.title") {
        Some("Postavljanje 4dy Client")
    } else if str_eq(key, "setup.prompt") {
        Some("Unesite URL svog 3CX web klijenta:")
    } else if str_eq(key, "setup.placeholder") {
        Some("https://moja-tvrtka.3cx.hr")
    } else if str_eq(key, "setup.error_empty") {
        Some("Unesite URL.")
    } else if str_eq(key, "setup.error_url") {
        Some("Unesite valjani URL")
    } else if str_eq(key, "setup.save_error") {
        Some("Greška pri spremanju:")
    } else if str_eq(key, "setup.button") {
        Some("Nastavi")
    } else if str_eq(key, "setup.saving") {
        Some("Spremanje...")
    } else {
        None
    }
}

/// The ET table: the text stored under `key`, if any.
pub open spec fn et_entry(key: Seq<char>) -> Option<Seq<char>> {
    if key == "tray.show"@ {
        Some("Kuva"@)
    } else if key == "tray.reload_config"@ {
        Some("Laadi konfiguratsioon uuesti"@)
    } else if key == "tray.register_tel"@ {
        Some("Registreeri tel: käitlejana"@)
    } else if key == "tray.devtools"@ {
        Some("DevTools (F12)"@)
    } else if key == "tray.open_config"@ {
        Some("Ava konfiguratsioon"@)
    } else if key == "tray.quit"@ {
        Some("Välju"@)
    } else if key == "popup.send_mail"@ {
        Some("✉  Saada tagasihelistamise e-kiri"@)
    } else if key == "mailto.subject"@ {
        Some("Palun helistage tagasi: {name} {number}"@)
    } else if key == "hist.select_multiple"@ {
        Some("Vali mitu"@)
    } else if key == "hist.all"@ {
        Some("Kõik"@)
    } else if key == "hist.selected_count"@ {
        Some("valitud"@)
    } else if key == "hist.delete_selected"@ {
        Some("Kustuta valitud"@)
    } else if key == "hist.cancel"@ {
        Some("Tühista"@)
    } else if key == "hist.confirm_delete"@ {
        Some("Kas soovite kustutada {count} kirjet?"@)
    } else if key == "hist.preparing"@ {
        Some("Ettevalmistamine..."@)
    } else if key == "hist.deleting"@ {
        Some("Kustutamine"@)
    } else if key == "hist.deleted"@ {
        Some("kustutatud!"@)
    } else if key == "setup.title"@ {
        Some("4dy Client seadistamine"@)
    } else if key == "setup.prompt"@ {
        Some("Sisestage oma 3CX veebikliendi URL:"@)
    } else if key == "setup.placeholder"@ {
        Some("https://minu-ettevote.3cx.ee"@)
    } else if key == "setup.error_empty"@ {
        Some("Sisestage URL."@)
    } else if key == "setup.error_url"@ {
        Some("Sisestage kehtiv URL"@)
    } else if key == "setup.save_error"@ {
        Some("Salvestamise viga:"@)
    } else if key == "setup.button"@ {
        Some("Jätka"@)
    } else if key == "setup.saving"@ {
        Some("Salvestamine..."@)
    } else {
        None
    }
}

/// Looks `key` up in the ET table.
pub fn et_lookup(key: &str) -> (r: Option<&'static str>)
    ensures
        match r {
            Some(v) => et_entry(key@) == Some(v@),
            None => et_entry(key@) is None,
        },
{
    if str_eq(key, "tray.show") {
        Some("Kuva")
    } else if str_eq(key, "tray.reload_config") {
        Some("Laadi konfiguratsioon uuesti")
    } else if str_eq(key, "tray.register_tel") {
        Some("Registreeri tel: käitlejana")
    } else if str_eq(key, "tray.devtools") {
        Some("DevTools (F12)")
    } else if str_eq(key, "tray.open_config") {
        Some("Ava konfiguratsioon")
    } else if str_eq(key, "tray.quit") {
        Some("Välju")
    } else if str_eq(key, "popup.send_mail") {
        Some("✉  Saada tagasihelistamise e-kiri")
    } else if str_eq(key, "mailto.subject") {
        Some("Palun helistage tagasi: {name} {number}")
    } else if str_eq(key, "hist.select_multiple") {
        Some("Vali mitu")
    } else if str_eq(key, "hist.all") {
        Some("Kõik")
    } else if str_eq(key, "hist.selected_count") {
        Some("valitud")
    } else if str_eq(key, "hist.delete_selected") {
        Some("Kustuta valitud")
    } else if str_eq(key, "hist.cancel") {
        Some("Tühista")
    } else if str_eq(key, "hist.confirm_delete") {
        Some("Kas soovite kustutada {count} kirjet?")
    } else if str_eq(key, "hist.preparing") {
        Some("Ettevalmistamine...")
    } else if str_eq(key, "hist.deleting") {
        Some("Kustutamine")
    } else if str_eq(key, "hist.deleted") {
        Some("kustutatud!")
    } else if str_eq(key, "setup.title") {
        Some("4dy Client seadistamine")
    } else if str_eq(key, "setup.prompt") {
        Some("Sisestage oma 3CX veebikliendi URL:")
    } else if str_eq(key, "setup.placeholder") {
        Some("https://minu-ettevote.3cx.ee")
    } else if str_eq(key, "setup.error_empty") {
        Some("Sisestage URL.")
    } else if str_eq(key, "setup.error_url") {
        Some("Sisestage kehtiv URL")
    } else if str_eq(key, "setup.save_error") {
        Some("Salvestamise viga:")
    } else if str_eq(key, "setup.button") {
        Some("Jätka")
    } else if str_eq(key, "setup.saving") {
        Some("Salvestamine...")
    } else {
        None
    }
}

/// The LV table: the text stored under `key`, if any.
pub open spec fn lv_entry(key: Seq<char>) -> Option<Seq<char>> {
    if key == "tray.show"@ {
        Some("Rādīt"@)
    } else if key == "tray.reload_config"@ {
        Some("Pārlādēt konfigurāciju"@)
    } else if key == "tray.register_tel"@ {
        Some("Reģistrēt kā tel: apstrādātāju"@)
    } else if key == "tray.devtools"@ {
        Some("DevTools (F12)"@)
    } else if key == "tray.open_config"@ {
        Some("Atvērt konfigurāciju"@)
    } else if key == "tray.quit"@ {
        Some("Iziet"@)
    } else if key == "popup.send_mail"@ {
        Some("✉  Sūtīt atzvana e-pastu"@)
    } else if key == "mailto.subject"@ {
        Some("Lūdzu atzvaniet: {name} {number}"@)
    } else if key == "hist.select_multiple"@ {
        Some("Atlasīt vairākus"@)
    } else if key == "hist.all"@ {
        Some("Visi"@)
    } else if key == "hist.selected_count"@ {
        Some("atlasīts"@)
    } else if key == "hist.delete_selected"@ {
        Some("Dzēst atlasītos"@)
    } else if key == "hist.cancel"@ {
        Some("Atcelt"@)
    } else if key == "hist.confirm_delete"@ {
        Some("Vai vēlaties dzēst {count} ierakstus?"@)
    } else if key == "hist.preparing"@ {
        Some("Sagatavošana..."@)
    } else if key == "hist.deleting"@ {
        Some("Dzēšana"@)
    } else if key == "hist.deleted"@ {
        Some("dzēsts!"@)
    } else if key == "setup.title"@ {
        Some("4dy Client iestatīšana"@)
    } else if key == "setup.prompt"@ {
        Some("Ievadiet sava 3CX tīmekļa klienta URL:"@)
    } else if key == "setup.placeholder"@ {
        Some("https://mans-uznemums.3cx.lv"@)
    } else if key == "setup.error_empty"@ {
        Some("Ievadiet URL."@)
    } else if key == "setup.error_url"@ {
        Some("Ievadiet derīgu URL"@)
    } else if key == "setup.save_error"@ {
        Some("Saglabāšanas kļūda:"@)
    } else if key == "setup.button"@ {
        Some("Turpināt"@)
    } else if key == "setup.saving"@ {
        Some("Saglabāšana..."@)
    } else {
        None
    }
}

/// Looks `key` up in the LV table.
pub fn lv_lookup(key: &str) -> (r: Option<&'static str>)
    ensures
        match r {
            Some(v) => lv_entry(key@) == Some(v@),
            None => lv_entry(key@) is None,
        },
{
    if str_eq(key, "tray.show") {
        Some("Rādīt")
    } else if str_eq(key, "tray.reload_config") {
        Some("Pārlādēt konfigurāciju")
    } else if str_eq(key, "tray.register_tel") {
        Some("Reģistrēt kā tel: apstrādātāju")
    } else if str_eq(key, "tray.devtools") {
        Some("DevTools (F12)")
    } else if str_eq(key, "tray.open_config") {
        Some("Atvērt konfigurāciju")
    } else if str_eq(key, "tray.quit") {
        Some("Iziet")
    } else if str_eq(key, "popup.send_mail") {
        Some("✉  Sūtīt atzvana e-pastu")
    } else if str_eq(key, "mailto.subject") {
        Some("Lūdzu atzvaniet: {name} {number}")
    } else if str_eq(key, "hist.select_multiple") {
        Some("Atlasīt vairākus")
    } else if str_eq(key, "hist.all") {
        Some("Visi")
    } else if str_eq(key, "hist.selected_count") {
        Some("atlasīts")
    } else if str_eq(key, "hist.delete_selected") {
        Some("Dzēst atlasītos")
    } else if str_eq(key, "hist.cancel") {
        Some("Atcelt")
    } else if str_eq(key, "hist.confirm_delete") {
        Some("Vai vēlaties dzēst {count} ierakstus?")
    } else if str_eq(key, "hist.preparing") {
        Some("Sagatavošana...")
    } else if str_eq(key, "hist.deleting") {
        Some("Dzēšana")
    } else if str_eq(key, "hist.deleted") {
        Some("dzēsts!")
    } else if str_eq(key, "setup.title") {
        Some("4dy Client iestatīšana")
    } else if str_eq(key, "setup.prompt") {
        Some("Ievadiet sava 3CX tīmekļa klienta URL:")
    } else if str_eq(key, "setup.placeholder") {
        Some("https://mans-uznemums.3cx.lv")
    } else if str_eq(key, "setup.error_empty") {
        Some("Ievadiet URL.")
    } else if str_eq(key, "setup.error_url") {
        Some("Ievadiet derīgu URL")
    } else if str_eq(key, "setup.save_error") {
        Some("Saglabāšanas kļūda:")
    } else if str_eq(key, "setup.button") {
        Some("Turpināt")
    } else if str_eq(key, "setup.saving") {
        Some("Saglabāšana...")
    } else {
        None
    }
}

/// The LT table: the text stored under `key`, if any.
pub open spec fn lt_entry(key: Seq<char>) -> Option<Seq<char>> {
    if key == "tray.show"@ {
        Some("Rodyti"@)
    } else if key == "tray.reload_config"@ {
        Some("Perkrauti konfigūraciją"@)
    } else if key == "tray.register_tel"@ {
        Some("Registruoti kaip tel: tvarkyklę"@)
    } else if key == "tray.devtools"@ {
        Some("DevTools (F12)"@)
    } else if key == "tray.open_config"@ {
        Some("Atidaryti konfigūraciją"@)
    } else if key == "tray.quit"@ {
        Some("Išeiti"@)
    } else if key == "popup.send_mail"@ {
        Some("✉  Siųsti atgalinio skambučio el. laišką"@)
    } else if key == "mailto.subject"@ {
        Some("Prašome perskambinti: {name} {number}"@)
    } else if key == "hist.select_multiple"@ {
        Some("Pasirinkti kelis"@)
    } else if key == "hist.all"@ {
        Some("Visi"@)
    } else if key == "hist.selected_count"@ {
        Some("pasirinkta"@)
    } else if key == "hist.delete_selected"@ {
        Some("Ištrinti pasirinktus"@)
    } else if key == "hist.cancel"@ {
        Some("Atšaukti"@)
    } else if key == "hist.confirm_delete"@ {
        Some("Ar norite ištrinti {count} įrašų?"@)
    } else if key == "hist.preparing"@ {
        Some("Ruošiama..."@)
    } else if key == "hist.deleting"@ {
        Some("Trinama"@)
    } else if key == "hist.deleted"@ {
        Some("ištrinta!"@)
    } else if key == "setup.title"@ {
        Some("4dy Client nustatymas"@)
    } else if key == "setup.prompt"@ {
        Some("Įveskite savo 3CX žiniatinklio kliento URL:"@)
    } else if key == "setup.placeholder"@ {
        Some("https://mano-imone.3cx.lt"@)
    } else if key == "setup.error_empty"@ {
        Some("Įveskite URL."@)
    } else if key == "setup.error_url"@ {
        Some("Įveskite galiojantį URL"@)
    } else if key == "setup.save_error"@ {
        Some("Išsaugojimo klaida:"@)
    } else if key == "setup.button"@ {
        Some("Tęsti"@)
    } else if key == "setup.saving"@ {
        Some("Saugoma..."@)
    } else {
        None
    }
}

/// Looks `key` up in the LT table.
pub fn lt_lookup(key: &str) -> (r: Option<&'static str>)
    ensures
        match r {
            Some(v) => lt_entry(key@) == Some(v@),
            None => lt_entry(key@) is None,
        },
{
    if str_eq(key, "tray.show") {
        Some("Rodyti")
    } else if str_eq(key, "tray.reload_config") {
        Some("Perkrauti konfigūraciją")
    } else if str_eq(key, "tray.register_tel") {
        Some("Registruoti kaip tel: tvarkyklę")
    } else if str_eq(key, "tray.devtools") {
        Some("DevTools (F12)")
    } else if str_eq(key, "tray.open_config") {
        Some("Atidaryti konfigūraciją")
    } else if str_eq(key, "tray.quit") {
        Some("Išeiti")
    } else if str_eq(key, "popup.send_mail") {
        Some("✉  Siųsti atgalinio skambučio el. laišką")
    } else if str_eq(key, "mailto.subject") {
        Some("Prašome perskambinti: {name} {number}")
    } else if str_eq(key, "hist.select_multiple") {
        Some("Pasirinkti kelis")
    } else if str_eq(key, "hist.all") {
        Some("Visi")
    } else if str_eq(key, "hist.selected_count") {
        Some("pasirinkta")
    } else if str_eq(key, "hist.delete_selected") {
        Some("Ištrinti pasirinktus")
    } else if str_eq(key, "hist.cancel") {
        Some("Atšaukti")
    } else if str_eq(key, "hist.confirm_delete") {
        Some("Ar norite ištrinti {count} įrašų?")
    } else if str_eq(key, "hist.preparing") {
        Some("Ruošiama...")
    } else if str_eq(key, "hist.deleting") {
        Some("Trinama")
    } else if str_eq(key, "hist.deleted") {
        Some("ištrinta!")
    } else if str_eq(key, "setup.title") {
        Some("4dy Client nustatymas")
    } else if str_eq(key, "setup.prompt") {
        Some("Įveskite savo 3CX žiniatinklio kliento URL:")
    } else if str_eq(key, "setup.placeholder") {
        Some("https://mano-imone.3cx.lt")
    } else if str_eq(key, "setup.error_empty") {
        Some("Įveskite URL.")
    } else if str_eq(key, "setup.error_url") {
        Some("Įveskite galiojantį URL")
    } else if str_eq(key, "setup.save_error") {
        Some("Išsaugojimo klaida:")
    } else if str_eq(key, "setup.button") {
        Some("Tęsti")
    } else if str_eq(key, "setup.saving") {
        Some("Saugoma...")
    } else {
        None
    }
}

/// The FI table: the text stored under `key`, if any.
pub open spec fn fi_entry(key: Seq<char>) -> Option<Seq<char>> {
    if key == "tray.show"@ {
        Some("Näytä"@)
    } else if key == "tray.reload_config"@ {
        Some("Lataa asetukset uudelleen"@)
    } else if key == "tray.register_tel"@ {
        Some("Rekisteröi tel: käsittelijäksi"@)
    } else if key == "tray.devtools"@ {
        Some("DevTools (F12)"@)
    } else if key == "tray.open_config"@ {
        Some("Avaa asetukset"@)
    } else if key == "tray.quit"@ {
        Some("Lopeta"@)
    } else if key == "popup.send_mail"@ {
        Some("✉  Lähetä takaisinsoittosähköposti"@)
    } else if key == "mailto.subject"@ {
        Some("Soita takaisin: {name} {number}"@)
    } else if key == "hist.select_multiple"@ {
        Some("Valitse useita"@)
    } else if key == "hist.all"@ {
        Some("Kaikki"@)
    } else if key == "hist.selected_count"@ {
        Some("valittu"@)
    } else if key == "hist.delete_selected"@ {
        Some("Poista valitut"@)
    } else if key == "hist.cancel"@ {
        Some("Peruuta"@)
    } else if key == "hist.confirm_delete"@ {
        Some("Haluatko poistaa {count} merkintää?"@)
    } else if key == "hist.preparing"@ {
        Some("Valmistellaan..."@)
    } else if key == "hist.deleting"@ {
        Some("Poistetaan"@)
    } else if key == "hist.deleted"@ {
        Some("poistettu!"@)
    } else if key == "setup.title"@ {
        Some("4dy Client -asetukset"@)
    } else if key == "setup.prompt"@ {
        Some("Anna 3CX-verkkoasiakkaan URL:"@)
    } else if key == "setup.placeholder"@ {
        Some("https://yritykseni.3cx.fi"@)
    } else if key == "setup.error_empty"@ {
        Some("Anna URL."@)
    } else if key == "setup.error_url"@ {
        Some("Anna kelvollinen URL"@)
    } else if key == "setup.save_error"@ {
        Some("Tallennusvirhe:"@)
    } else if key == "setup.button"@ {
        Some("Jatka"@)
    } else if key == "setup.saving"@ {
        Some("Tallennetaan..."@)
    } else {
        None
    }
}

/// Looks `key` up in the FI table.
pub fn fi_lookup(key: &str) -> (r: Option<&'static str>)
    ensures
        match r {
            Some(v) => fi_entry(key@) == Some(v@),
            None => fi_entry(key@) is None,
        },
{
    if str_eq(key, "tray.show") {
        Some("Näytä")
    } else if str_eq(key, "tray.reload_config") {
        Some("Lataa asetukset uudelleen")
    } else if str_eq(key, "tray.register_tel") {
        Some("Rekisteröi tel: käsittelijäksi")
    } else if str_eq(key, "tray.devtools") {
        Some("DevTools (F12)")
    } else if str_eq(key, "tray.open_config") {
        Some("Avaa asetukset")
    } else if str_eq(key, "tray.quit") {
        Some("Lopeta")
    } else if str_eq(key, "popup.send_mail") {
        Some("✉  Lähetä takaisinsoittosähköposti")
    } else if str_eq(key, "mailto.subject") {
        Some("Soita takaisin: {name} {number}")
    } else if str_eq(key, "hist.select_multiple") {
        Some("Valitse useita")
    } else if str_eq(key, "hist.all") {
        Some("Kaikki")
    } else if str_eq(key, "hist.selected_count") {
        Some("valittu")
    } else if str_eq(key, "hist.delete_selected") {
        Some("Poista valitut")
    } else if str_eq(key, "hist.cancel") {
        Some("Peruuta")
    } else if str_eq(key, "hist.confirm_delete") {
        Some("Haluatko poistaa {count} merkintää?")
    } else if str_eq(key, "hist.preparing") {
        Some("Valmistellaan...")
    } else if str_eq(key, "hist.deleting") {
        Some("Poistetaan")
    } else if str_eq(key, "hist.deleted") {
        Some("poistettu!")
    } else if str_eq(key, "setup.title") {
        Some("4dy Client -asetukset")
    } else if str_eq(key, "setup.prompt") {
        Some("Anna 3CX-verkkoasiakkaan URL:")
    } else if str_eq(key, "setup.placeholder") {
        Some("https://yritykseni.3cx.fi")
    } else if str_eq(key, "setup.error_empty") {
        Some("Anna URL.")
    } else if str_eq(key, "setup.error_url") {
        Some("Anna kelvollinen URL")
    } else if str_eq(key, "setup.save_error") {
        Some("Tallennusvirhe:")
    } else if str_eq(key, "setup.button") {
        Some("Jatka")
    } else if str_eq(key, "setup.saving") {
        Some("Tallennetaan...")
    } else {
        None
    }
}

/// The SV table: the text stored under `key`, if any.
pub open spec fn sv_entry(key: Seq<char>) -> Option<Seq<char>> {
    if key == "tray.show"@ {
        Some("Visa"@)
    } else if key == "tray.reload_config"@ {
        Some("Ladda om konfiguration"@)
    } else if key == "tray.register_tel"@ {
        Some("Registrera som tel: hanterare"@)
    } else if key == "tray.devtools"@ {
        Some("DevTools (F12)"@)
    } else if key == "tray.open_config"@ {
        Some("Öppna konfiguration"@)
    } else if key == "tray.quit"@ {
        Some("Avsluta"@)
    } else if key == "popup.send_mail"@ {
        Some("✉  Skicka återuppringningsmail"@)
    } else if key == "mailto.subject"@ {
        Some("Vänligen ring tillbaka: {name} {number}"@)
    } else if key == "hist.select_multiple"@ {
        Some("Välj flera"@)
    } else if key == "hist.all"@ {
        Some("Alla"@)
    } else if key == "hist.selected_count"@ {
        Some("valda"@)
    } else if key == "hist.delete_selected"@ {
        Some("Ta bort valda"@)
    } else if key == "hist.cancel"@ {
        Some("Avbryt"@)
    } else if key == "hist.confirm_delete"@ {
        Some("Vill du ta bort {count} poster?"@)
    } else if key == "hist.preparing"@ {
        Some("Förbereder..."@)
    } else if key == "hist.deleting"@ {
        Some("Tar bort"@)
    } else if key == "hist.deleted"@ {
        Some("borttagna!"@)
    } else if key == "setup.title"@ {
        Some("Konfigurera 4dy Client"@)
    } else if key == "setup.prompt"@ {
        Some("Ange URL för din 3CX-webbklient:"@)
    } else if key == "setup.placeholder"@ {
        Some("https://mitt-foretag.3cx.se"@)
    } else if key == "setup.error_empty"@ {
        Some("Ange en URL."@)
    } else if key == "setup.error_url"@ {
        Some("Ange en giltig URL"@)
    } else if key == "setup.save_error"@ {
        Some("Fel vid sparning:"@)
    } else if key == "setup.button"@ {
        Some("Fortsätt"@)
    } else if key == "setup.saving"@ {
        Some("Sparar..."@)
    } else {
        None
    }
}

/// Looks `key` up in the SV table.
pub fn sv_lookup(key: &str) -> (r: Option<&'static str>)
    ensures
        match r {
            Some(v) => sv_entry(key@) == Some(v@),
            None => sv_entry(key@) is None,
        },
{
    if str_eq(key, "tray.show") {
        Some("Visa")
    } else if str_eq(key, "tray.reload_config") {
        Some("Ladda om konfiguration")
    } else if str_eq(key, "tray.register_tel") {
        Some("Registrera som tel: hanterare")
    } else if str_eq(key, "tray.devtools") {
        Some("DevTools (F12)")
    } else if str_eq(key, "tray.open_config") {
        Some("Öppna konfiguration")
    } else if str_eq(key, "tray.quit") {
        Some("Avsluta")
    } else if str_eq(key, "popup.send_mail") {
        Some("✉  Skicka återuppringningsmail")
    } else if str_eq(key, "mailto.subject") {
        Some("Vänligen ring tillbaka: {name} {number}")
    } else if str_eq(key, "hist.select_multiple") {
        Some("Välj flera")
    } else if str_eq(key, "hist.all") {
        Some("Alla")
    } else if str_eq(key, "hist.selected_count") {
        Some("valda")
    } else if str_eq(key, "hist.delete_selected") {
        Some("Ta bort valda")
    } else if str_eq(key, "hist.cancel") {
        Some("Avbryt")
    } else if str_eq(key, "hist.confirm_delete") {
        Some("Vill du ta bort {count} poster?")
    } else if str_eq(key, "hist.preparing") {
        Some("Förbereder...")
    } else if str_eq(key, "hist.deleting") {
        Some("Tar bort")
    } else if str_eq(key, "hist.deleted") {
        Some("borttagna!")
    } else if str_eq(key, "setup.title") {
        Some("Konfigurera 4dy Client")
    } else if str_eq(key, "setup.prompt") {
        Some("Ange URL för din 3CX-webbklient:")
    } else if str_eq(key, "setup.placeholder") {
        Some("https://mitt-foretag.3cx.se")
    } else if str_eq(key, "setup.error_empty") {
        Some("Ange en URL.")
    } else if str_eq(key, "setup.error_url") {
        Some("Ange en giltig URL")
    } else if str_eq(key, "setup.save_error") {
        Some("Fel vid sparning:")
    } else if str_eq(key, "setup.button") {
        Some("Fortsätt")
    } else if str_eq(key, "setup.saving") {
        Some("Sparar...")
    } else {
        None
    }
}

/// The NO table: the text stored under `key`, if any.
pub open spec fn no_entry(key: Seq<char>) -> Option<Seq<char>> {
    if key == "tray.show"@ {
        Some("Vis"@)
    } else if key == "tray.reload_config"@ {
        Some("Last inn konfigurasjon på nytt"@)
    } else if key == "tray.register_tel"@ {
        Some("Registrer som tel: handler"@)
    } else if key == "tray.devtools"@ {
        Some("DevTools (F12)"@)
    } else if key == "tray.open_config"@ {
        Some("Åpne konfigurasjon"@)
    } else if key == "tray.quit"@ {
        Some("Avslutt"@)
    } else if key == "popup.send_mail"@ {
        Some("✉  Send tilbakeringingsmail"@)
    } else if key == "mailto.subject"@ {
        Some("Vennligst ring tilbake: {name} {number}"@)
    } else if key == "hist.select_multiple"@ {
        Some("Velg flere"@)
    } else if key == "hist.all"@ {
        Some("Alle"@)
    } else if key == "hist.selected_count"@ {
        Some("valgt"@)
    } else if key == "hist.delete_selected"@ {
        Some("Slett valgte"@)
    } else if key == "hist.cancel"@ {
        Some("Avbryt"@)
    } else if key == "hist.confirm_delete"@ {
        Some("Vil du slette {count} oppføringer?"@)
    } else if key == "hist.preparing"@ {
        Some("Forbereder..."@)
    } else if key == "hist.deleting"@ {
        Some("Sletter"@)
    } else if key == "hist.deleted"@ {
        Some("slettet!"@)
    } else if key == "setup.title"@ {
        Some("Konfigurer 4dy Client"@)
    } else if key == "setup.prompt"@ {
        Some("Skriv inn URL-en til din 3CX-webklient:"@)
    } else if key == "setup.placeholder"@ {
        Some("https://mitt-firma.3cx.no"@)
    } else if key == "setup.error_empty"@ {
        Some("Skriv inn en URL."@)
    } else if key == "setup.error_url"@ {
        Some("Skriv inn en gyldig URL"@)
    } else if key == "setup.save_error"@ {
        Some("Feil ved lagring:"@)
    } else if key == "setup.button"@ {
        Some("Fortsett"@)
    } else if key == "setup.saving"@ {
        Some("Lagrer..."@)
    } else {
        None
    }
}

/// Looks `key` up in the NO table.
pub fn no_lookup(key: &str) -> (r: Option<&'static str>)
    ensures
        match r {
            Some(v) => no_entry(key@) == Some(v@),
            None => no_entry(key@) is None,
        },
{
    if str_eq(key, "tray.show") {
        Some("Vis")
    } else if str_eq(key, "tray.reload_config") {
        Some("Last inn konfigurasjon på nytt")
    } else if str_eq(key, "tray.register_tel") {
        Some("Registrer som tel: handler")
    } else if str_eq(key, "tray.devtools") {
        Some("DevTools (F12)")
    } else if str_eq(key, "tray.open_config") {
        Some("Åpne konfigurasjon")
    } else if str_eq(key, "tray.quit") {
        Some("Avslutt")
    } else if str_eq(key, "popup.send_mail") {
        Some("✉  Send tilbakeringingsmail")
    } else if str_eq(key, "mailto.subject") {
        Some("Vennligst ring tilbake: {name} {number}")
    } else if str_eq(key, "hist.select_multiple") {
        Some("Velg flere")
    } else if str_eq(key, "hist.all") {
        Some("Alle")
    } else if str_eq(key, "hist.selected_count") {
        Some("valgt")
    } else if str_eq(key, "hist.delete_selected") {
        Some("Slett valgte")
    } else if str_eq(key, "hist.cancel") {
        Some("Avbryt")
    } else if str_eq(key, "hist.confirm_delete") {
        Some("Vil du slette {count} oppføringer?")
    } else if str_eq(key, "hist.preparing") {
        Some("Forbereder...")
    } else if str_eq(key, "hist.deleting") {
        Some("Sletter")
    } else if str_eq(key, "hist.deleted") {
        Some("slettet!")
    } else if str_eq(key, "setup.title") {
        Some("Konfigurer 4dy Client")
    } else if str_eq(key, "setup.prompt") {
        Some("Skriv inn URL-en til din 3CX-webklient:")
    } else if str_eq(key, "setup.placeholder") {
        Some("https://mitt-firma.3cx.no")
    } else if str_eq(key, "setup.error_empty") {
        Some("Skriv inn en URL.")
    } else if str_eq(key, "setup.error_url") {
        Some("Skriv inn en gyldig URL")
    } else if str_eq(key, "setup.save_error") {
        Some("Feil ved lagring:")
    } else if str_eq(key, "setup.button") {
        Some("Fortsett")
    } else if str_eq(key, "setup.saving") {
        Some("Lagrer...")
    } else {
        None
    }
}

/// The DA table: the text stored under `key`, if any.
pub open spec fn da_entry(key: Seq<char>) -> Option<Seq<char>> {
    if key == "tray.show"@ {
        Some("Vis"@)
    } else if key == "tray.reload_config"@ {
        Some("Genindlæs konfiguration"@)
    } else if key == "tray.register_tel"@ {
        Some("Registrer som tel: handler"@)
    } else if key == "tray.devtools"@ {
        Some("DevTools (F12)"@)
    } else if key == "tray.open_config"@ {
        Some("Åbn konfiguration"@)
    } else if key == "tray.quit"@ {
        Some("Afslut"@)
    } else if key == "popup.send_mail"@ {
        Some("✉  Send tilbagekaldsmail"@)
    } else if key == "mailto.subject"@ {
        Some("Ring venligst tilbage: {name} {number}"@)
    } else if key == "hist.select_multiple"@ {
        Some("Vælg flere"@)
    } else if key == "hist.all"@ {
        Some("Alle"@)
    } else if key == "hist.selected_count"@ {
        Some("valgt"@)
    } else if key == "hist.delete_selected"@ {
        Some("Slet valgte"@)
    } else if key == "hist.cancel"@ {
        Some("Annuller"@)
    } else if key == "hist.confirm_delete"@ {
        Some("Vil du slette {count} poster?"@)
    } else if key == "hist.preparing"@ {
        Some("Forbereder..."@)
    } else if key == "hist.deleting"@ {
        Some("Sletter"@)
    } else if key == "hist.deleted"@ {
        Some("slettet!"@)
    } else if key == "setup.title"@ {
        Some("Konfigurer 4dy Client"@)
    } else if key == "setup.prompt"@ {
        Some("Indtast URL til din 3CX webklient:"@)
    } else if key == "setup.placeholder"@ {
        Some("https://min-virksomhed.3cx.dk"@)
    } else if key == "setup.error_empty"@ {
        Some("Indtast en URL."@)
    } else if key == "setup.error_url"@ {
        Some("Indtast en gyldig URL"@)
    } else if key == "setup.save_error"@ {
        Some("Fejl ved gemning:"@)
    } else if key == "setup.button"@ {
        Some("Fortsæt"@)
    } else if key == "setup.saving"@ {
        Some("Gemmer..."@)
    } else {
        None
    }
}

/// Looks `key` up in the DA table.
pub fn da_lookup(key: &str) -> (r: Option<&'static str>)
    ensures
        match r {
            Some(v) => da_entry(key@) == Some(v@),
            None => da_entry(key@) is None,
        },
{
    if str_eq(key, "tray.show") {
        Some("Vis")
    } else if str_eq(key, "tray.reload_config") {
        Some("Genindlæs konfiguration")
    } else if str_eq(key, "tray.register_tel") {
        Some("Registrer som tel: handler")
    } else if str_eq(key, "tray.devtools") {
        Some("DevTools (F12)")
    } else if str_eq(key, "tray.open_config") {
        Some("Åbn konfiguration")
    } else if str_eq(key, "tray.quit") {
        Some("Afslut")
    } else if str_eq(key, "popup.send_mail") {
        Some("✉  Send tilbagekaldsmail")
    } else if str_eq(key, "mailto.subject") {
        Some("Ring venligst tilbage: {name} {number}")
    } else if str_eq(key, "hist.select_multiple") {
        Some("Vælg flere")
    } else if str_eq(key, "hist.all") {
        Some("Alle")
    } else if str_eq(key, "hist.selected_count") {
        Some("valgt")
    } else if str_eq(key, "hist.delete_selected") {
        Some("Slet valgte")
    } else if str_eq(key, "hist.cancel") {
        Some("Annuller")
    } else if str_eq(key, "hist.confirm_delete") {
        Some("Vil du slette {count} poster?")
    } else if str_eq(key, "hist.preparing") {
        Some("Forbereder...")
    } else if str_eq(key, "hist.deleting") {
        Some("Sletter")
    } else if str_eq(key, "hist.deleted") {
        Some("slettet!")
    } else if str_eq(key, "setup.title") {
        Some("Konfigurer 4dy Client")
    } else if str_eq(key, "setup.prompt") {
        Some("Indtast URL til din 3CX webklient:")
    } else if str_eq(key, "setup.placeholder") {
        Some("https://min-virksomhed.3cx.dk")
    } else if str_eq(key, "setup.error_empty") {
        Some("Indtast en URL.")
    } else if str_eq(key, "setup.error_url") {
        Some("Indtast en gyldig URL")
    } else if str_eq(key, "setup.save_error") {
        Some("Fejl ved gemning:")
    } else if str_eq(key, "setup.button") {
        Some("Fortsæt")
    } else if str_eq(key, "setup.saving") {
        Some("Gemmer...")
    } else {
        None
    }
}

/// The EL table: the text stored under `key`, if any.
pub open spec fn el_entry(key: Seq<char>) -> Option<Seq<char>> {
    if key == "tray.show"@ {
        Some("Εμφάνιση"@)
    } else if key == "tray.reload_config"@ {
        Some("Επαναφόρτωση ρυθμίσεων"@)
    } else if key == "tray.register_tel"@ {
        Some("Εγγραφή ως χειριστής tel:"@)
    } else if key == "tray.devtools"@ {
        Some("DevTools (F12)"@)
    } else if key == "tray.open_config"@ {
        Some("Άνοιγμα ρυθμίσεων"@)
    } else if key == "tray.quit"@ {
        Some("Έξοδος"@)
    } else if key == "popup.send_mail"@ {
        Some("✉  Αποστολή email επιστροφής κλήσης"@)
    } else if key == "mailto.subject"@ {
        Some("Παρακαλώ καλέστε πίσω: {name} {number}"@)
    } else if key == "hist.select_multiple"@ {
        Some("Επιλογή πολλαπλών"@)
    } else if key == "hist.all"@ {
        Some("Όλα"@)
    } else if key == "hist.selected_count"@ {
        Some("επιλεγμένα"@)
    } else if key == "hist.delete_selected"@ {
        Some("Διαγραφή επιλεγμένων"@)
    } else if key == "hist.cancel"@ {
        Some("Ακύρωση"@)
    } else if key == "hist.confirm_delete"@ {
        Some("Θέλετε να διαγράψετε {count} εγγραφές;"@)
    } else if key == "hist.preparing"@ {
        Some("Προετοιμασία..."@)
    } else if key == "hist.deleting"@ {
        Some("Διαγραφή"@)
    } else if key == "hist.deleted"@ {
        Some("διαγράφηκαν!"@)
    } else if key == "setup.title"@ {
        Some("Ρύθμιση 4dy Client"@)
    } else if key == "setup.prompt"@ {
        Some("Εισάγετε το URL του 3CX web client σας:"@)
    } else if key == "setup.placeholder"@ {
        Some("https://i-etairia-mou.3cx.gr"@)
    } else if key == "setup.error_empty"@ {
        Some("Εισάγετε ένα URL."@)
    } else if key == "setup.error_url"@ {
        Some("Εισάγετε έγκυρο URL"@)
    } else if key == "setup.save_error"@ {
        Some("Σφάλμα αποθήκευσης:"@)
    } else if key == "setup.button"@ {
        Some("Συνέχεια"@)
    } else if key == "setup.saving"@ {
        Some("Αποθήκευση..."@)
    } else {
        None
    }
}

/// Looks `key` up in the EL table.
pub fn el_lookup(key: &str) -> (r: Option<&'static str>)
    ensures
        match r {
            Some(v) => el_entry(key@) == Some(v@),
            None => el_entry(key@) is None,
        },
{
    if str_eq(key, "tray.show") {
        Some("Εμφάνιση")
    } else if str_eq(key, "tray.reload_config") {
        Some("Επαναφόρτωση ρυθμίσεων")
    } else if str_eq(key, "tray.register_tel") {
        Some("Εγγραφή ως χειριστής tel:")
    } else if str_eq(key, "tray.devtools") {
        Some("DevTools (F12)")
    } else if str_eq(key, "tray.open_config") {
        Some("Άνοιγμα ρυθμίσεων")
    } else if str_eq(key, "tray.quit") {
        Some("Έξοδος")
    } else if str_eq(key, "popup.send_mail") {
        Some("✉  Αποστολή email επιστροφής κλήσης")
    } else if str_eq(key, "mailto.subject") {
        Some("Παρακαλώ καλέστε πίσω: {name} {number}")
    } else if str_eq(key, "hist.select_multiple") {
        Some("Επιλογή πολλαπλών")
    } else if str_eq(key, "hist.all") {
        Some("Όλα")
    } else if str_eq(key, "hist.selected_count") {
        Some("επιλεγμένα")
    } else if str_eq(key, "hist.delete_selected") {
        Some("Διαγραφή επιλεγμένων")
    } else if str_eq(key, "hist.cancel") {
        Some("Ακύρωση")
    } else if str_eq(key, "hist.confirm_delete") {
        Some("Θέλετε να διαγράψετε {count} εγγραφές;")
    } else if str_eq(key, "hist.preparing") {
        Some("Προετοιμασία...")
    } else if str_eq(key, "hist.deleting") {
        Some("Διαγραφή")
    } else if str_eq(key, "hist.deleted") {
        Some("διαγράφηκαν!")
    } else if str_eq(key, "setup.title") {
        Some("Ρύθμιση 4dy Client")
    } else if str_eq(key, "setup.prompt") {
        Some("Εισάγετε το URL του 3CX web client σας:")
    } else if str_eq(key, "setup.placeholder") {
        Some("https://i-etairia-mou.3cx.gr")
    } else if str_eq(key, "setup.error_empty") {
        Some("Εισάγετε ένα URL.")
    } else if str_eq(key, "setup.error_url") {
        Some("Εισάγετε έγκυρο URL")
    } else if str_eq(key, "setup.save_error") {
        Some("Σφάλμα αποθήκευσης:")
    } else if str_eq(key, "setup.button") {
        Some("Συνέχεια")
    } else if str_eq(key, "setup.saving") {
        Some("Αποθήκευση...")
    } else {
        None
    }
}

/// The TR table: the text stored under `key`, if any.
pub open spec fn tr_entry(key: Seq<char>) -> Option<Seq<char>> {
    if key == "tray.show"@ {
        Some("Göster"@)
    } else if key == "tray.reload_config"@ {
        Some("Yapılandırmayı yeniden yükle"@)
    } else if key == "tray.register_tel"@ {
        Some("tel: işleyicisi olarak kaydet"@)
    } else if key == "tray.devtools"@ {
        Some("DevTools (F12)"@)
    } else if key == "tray.open_config"@ {
        Some("Yapılandırmayı aç"@)
    } else if key == "tray.quit"@ {
        Some("Çıkış"@)
    } else if key == "popup.send_mail"@ {
        Some("✉  Geri arama e-postası gönder"@)
    } else if key == "mailto.subject"@ {
        Some("Lütfen geri arayın: {name} {number}"@)
    } else if key == "hist.select_multiple"@ {
        Some("Birden fazla seç"@)
    } else if key == "hist.all"@ {
        Some("Tümü"@)
    } else if key == "hist.selected_count"@ {
        Some("seçildi"@)
    } else if key == "hist.delete_selected"@ {
        Some("Seçilenleri sil"@)
    } else if key == "hist.cancel"@ {
        Some("İptal"@)
    } else if key == "hist.confirm_delete"@ {
        Some("{count} kaydı silmek istiyor musunuz?"@)
    } else if key == "hist.preparing"@ {
        Some("Hazırlanıyor..."@)
    } else if key == "hist.deleting"@ {
        Some("Siliniyor"@)
    } else if key == "hist.deleted"@ {
        Some("silindi!"@)
    } else if key == "setup.title"@ {
        Some("4dy Client kurulumu"@)
    } else if key == "setup.prompt"@ {
        Some("3CX web istemcinizin adresini (URL) girin:"@)
    } else if key == "setup.placeholder"@ {
        Some("https://sirketim.3cx.com.tr"@)
    } else if key == "setup.error_empty"@ {
        Some("Lütfen bir URL girin."@)
    } else if key == "setup.error_url"@ {
        Some("Lütfen geçerli bir URL girin"@)
    } else if key == "setup.save_error"@ {
        Some("Kaydetme hatası:"@)
    } else if key == "setup.button"@ {
        Some("Devam"@)
    } else if key == "setup.saving"@ {
        Some("Kaydediliyor..."@)
    } else {
        None
    }
}

/// Looks `key` up in the TR table.
pub fn tr_lookup(key: &str) -> (r: Option<&'static str>)
    ensures
        match r {
            Some(v) => tr_entry(key@) == Some(v@),
            None => tr_entry(key@) is None,
        },
{
    if str_eq(key, "tray.show") {
        Some("Göster")
    } else if str_eq(key, "tray.reload_config") {
        Some("Yapılandırmayı yeniden yükle")
    } else if str_eq(key, "tray.register_tel") {
        Some("tel: işleyicisi olarak kaydet")
    } else if str_eq(key, "tray.devtools") {
        Some("DevTools (F12)")
    } else if str_eq(key, "tray.open_config") {
        Some("Yapılandırmayı aç")
    } else if str_eq(key, "tray.quit") {
        Some("Çıkış")
    } else if str_eq(key, "popup.send_mail") {
        Some("✉  Geri arama e-postası gönder")
    } else if str_eq(key, "mailto.subject") {
        Some("Lütfen geri arayın: {name} {number}")
    } else if str_eq(key, "hist.select_multiple") {
        Some("Birden fazla seç")
    } else if str_eq(key, "hist.all") {
        Some("Tümü")
    } else if str_eq(key, "hist.selected_count") {
        Some("seçildi")
    } else if str_eq(key, "hist.delete_selected") {
        Some("Seçilenleri sil")
    } else if str_eq(key, "hist.cancel") {
        Some("İptal")
    } else if str_eq(key, "hist.confirm_delete") {
        Some("{count} kaydı silmek istiyor musunuz?")
    } else if str_eq(key, "hist.preparing") {
        Some("Hazırlanıyor...")
    } else if str_eq(key, "hist.deleting") {
        Some("Siliniyor")
    } else if str_eq(key, "hist.deleted") {
        Some("silindi!")
    } else if str_eq(key, "setup.title") {
        Some("4dy Client kurulumu")
    } else if str_eq(key, "setup.prompt") {
        Some("3CX web istemcinizin adresini (URL) girin:")
    } else if str_eq(key, "setup.placeholder") {
        Some("https://sirketim.3cx.com.tr")
    } else if str_eq(key, "setup.error_empty") {
        Some("Lütfen bir URL girin.")
    } else if str_eq(key, "setup.error_url") {
        Some("Lütfen geçerli bir URL girin")
    } else if str_eq(key, "setup.save_error") {
        Some("Kaydetme hatası:")
    } else if str_eq(key, "setup.button") {
        Some("Devam")
    } else if str_eq(key, "setup.saving") {
        Some("Kaydediliyor...")
    } else {
        None
    }
}

/// The RU table: the text stored under `key`, if any.
pub open spec fn ru_entry(key: Seq<char>) -> Option<Seq<char>> {
    if key == "tray.show"@ {
        Some("Показать"@)
    } else if key == "tray.reload_config"@ {
        Some("Перезагрузить конфигурацию"@)
    } else if key == "tray.register_tel"@ {
        Some("Зарегистрировать как обработчик tel:"@)
    } else if key == "tray.devtools"@ {
        Some("DevTools (F12)"@)
    } else if key == "tray.open_config"@ {
        Some("Открыть конфигурацию"@)
    } else if key == "tray.quit"@ {
        Some("Выход"@)
    } else if key == "popup.send_mail"@ {
        Some("✉  Отправить письмо с просьбой перезвонить"@)
    } else if key == "mailto.subject"@ {
        Some("Пожалуйста, перезвоните: {name} {number}"@)
    } else if key == "hist.select_multiple"@ {
        Some("Выбрать несколько"@)
    } else if key == "hist.all"@ {
        Some("Все"@)
    } else if key == "hist.selected_count"@ {
        Some("выбрано"@)
    } else if key == "hist.delete_selected"@ {
        Some("Удалить выбранные"@)
    } else if key == "hist.cancel"@ {
        Some("Отмена"@)
    } else if key == "hist.confirm_delete"@ {
        Some("Удалить записи ({count})?"@)
    } else if key == "hist.preparing"@ {
        Some("Подготовка..."@)
    } else if key == "hist.deleting"@ {
        Some("Удаление"@)
    } else if key == "hist.deleted"@ {
        Some("удалено!"@)
    } else if key == "setup.title"@ {
        Some("Настройка 4dy Client"@)
    } else if key == "setup.prompt"@ {
        Some("Введите URL вашего веб-клиента 3CX:"@)
    } else if key == "setup.placeholder"@ {
        Some("https://moya-kompaniya.3cx.ru"@)
    } else if key == "setup.error_empty"@ {
        Some("Введите URL."@)
    } else if key == "setup.error_url"@ {
        Some("Введите корректный URL"@)
    } else if key == "setup.save_error"@ {
        Some("Ошибка сохранения:"@)
    } else if key == "setup.button"@ {
        Some("Продолжить"@)
    } else if key == "setup.saving"@ {
        Some("Сохранение..."@)
    } else {
        None
    }
}

/// Looks `key` up in the RU table.
pub fn ru_lookup(key: &str) -> (r: Option<&'static str>)
    ensures
        match r {
            Some(v) => ru_entry(key@) == Some(v@),
            None => ru_entry(key@) is None,
        },
{
    if str_eq(key, "tray.show") {
        Some("Показать")
    } else if str_eq(key, "tray.reload_config") {
        Some("Перезагрузить конфигурацию")
    } else if str_eq(key, "tray.register_tel") {
        Some("Зарегистрировать как обработчик tel:")
    } else if str_eq(key, "tray.devtools") {
        Some("DevTools (F12)")
    } else if str_eq(key, "tray.open_config") {
        Some("Открыть конфигурацию")
    } else if str_eq(key, "tray.quit") {
        Some("Выход")
    } else if str_eq(key, "popup.send_mail") {
        Some("✉  Отправить письмо с просьбой перезвонить")
    } else if str_eq(key, "mailto.subject") {
        Some("Пожалуйста, перезвоните: {name} {number}")
    } else if str_eq(key, "hist.select_multiple") {
        Some("Выбрать несколько")
    } else if str_eq(key, "hist.all") {
        Some("Все")
    } else if str_eq(key, "hist.selected_count") {
        Some("выбрано")
    } else if str_eq(key, "hist.delete_selected") {
        Some("Удалить выбранные")
    } else if str_eq(key, "hist.cancel") {
        Some("Отмена")
    } else if str_eq(key, "hist.confirm_delete") {
        Some("Удалить записи ({count})?")
    } else if str_eq(key, "hist.preparing") {
        Some("Подготовка...")
    } else if str_eq(key, "hist.deleting") {
        Some("Удаление")
    } else if str_eq(key, "hist.deleted") {
        Some("удалено!")
    } else if str_eq(key, "setup.title") {
        Some("Настройка 4dy Client")
    } else if str_eq(key, "setup.prompt") {
        Some("Введите URL вашего веб-клиента 3CX:")
    } else if str_eq(key, "setup.placeholder") {
        Some("https://moya-kompaniya.3cx.ru")
    } else if str_eq(key, "setup.error_empty") {
        Some("Введите URL.")
    } else if str_eq(key, "setup.error_url") {
        Some("Введите корректный URL")
    } else if str_eq(key, "setup.save_error") {
        Some("Ошибка сохранения:")
    } else if str_eq(key, "setup.button") {
        Some("Продолжить")
    } else if str_eq(key, "setup.saving") {
        Some("Сохранение...")
    } else {
        None
    }
}

/// The keys of the call-history texts, which the page scripts embed in quotes.
pub open spec fn is_hist_key(key: Seq<char>) -> bool {
    ||| key == "hist.select_multiple"@
    ||| key == "hist.all"@
    ||| key == "hist.selected_count"@
    ||| key == "hist.delete_selected"@
    ||| key == "hist.cancel"@
    ||| key == "hist.confirm_delete"@
    ||| key == "hist.preparing"@
    ||| key == "hist.deleting"@
    ||| key == "hist.deleted"@
}

/// `v` holds no single quote, backslash or line break.
pub open spec fn plain_hist_text(v: Seq<char>) -> bool {
    forall|i: int| 0 <= i < v.len() ==> v[i] != '\'' && v[i] != '\\' && v[i] != '\n'
}

/// What every table keeps to: its keys are keys of the English table, no text
/// is `???`, history texts are plain, the mail subject holds `{name}` and
/// `{number}`, and the delete question holds `{count}`.
pub open spec fn table_shape(entry: spec_fn(Seq<char>) -> Option<Seq<char>>, key: Seq<char>) -> bool {
    &&& entry(key) is Some ==> en_entry(key) is Some
    &&& entry(key) != Some("???"@)
    &&& is_hist_key(key) ==> (entry(key) matches Some(v) ==> plain_hist_text(v))
    &&& entry("mailto.subject"@) matches Some(v) && has_infix(v, "{name}"@) && has_infix(v, "{number}"@)
    &&& entry("hist.confirm_delete"@) matches Some(v) && has_infix(v, "{count}"@)
}

/// The keys that come before a history key or the mail subject in the tables
/// differ from it.
proof fn lemma_keys_distinct()
    ensures
        "hist.select_multiple"@ != "tray.show"@,
        "hist.select_multiple"@ != "tray.reload_config"@,
        "hist.select_multiple"@ != "tray.register_tel"@,
        "hist.select_multiple"@ != "tray.devtools"@,
        "hist.select_multiple"@ != "tray.open_config"@,
        "hist.select_multiple"@ != "tray.quit"@,
        "hist.select_multiple"@ != "popup.send_mail"@,
        "hist.select_multiple"@ != "mailto.subject"@,
        "hist.all"@ != "tray.show"@,
        "hist.all"@ != "tray.reload_config"@,
        "hist.all"@ != "tray.register_tel"@,
        "hist.all"@ != "tray.devtools"@,
        "hist.all"@ != "tray.open_config"@,
        "hist.all"@ != "tray.quit"@,
        "hist.all"@ != "popup.send_mail"@,
        "hist.all"@ != "mailto.subject"@,
        "hist.all"@ != "hist.select_multiple"@,
        "hist.selected_count"@ != "tray.show"@,
        "hist.selected_count"@ != "tray.reload_config"@,
        "hist.selected_count"@ != "tray.register_tel"@,
        "hist.selected_count"@ != "tray.devtools"@,
        "hist.selected_count"@ != "tray.open_config"@,
        "hist.selected_count"@ != "tray.quit"@,
        "hist.selected_count"@ != "popup.send_mail"@,
        "hist.selected_count"@ != "mailto.subject"@,
        "hist.selected_count"@ != "hist.select_multiple"@,
        "hist.selected_count"@ != "hist.all"@,
        "hist.delete_selected"@ != "tray.show"@,
        "hist.delete_selected"@ != "tray.reload_config"@,
        "hist.delete_selected"@ != "tray.register_tel"@,
        "hist.delete_selected"@ != "tray.devtools"@,
        "hist.delete_selected"@ != "tray.open_config"@,
        "hist.delete_selected"@ != "tray.quit"@,
        "hist.delete_selected"@ != "popup.send_mail"@,
        "hist.delete_selected"@ != "mailto.subject"@,
        "hist.delete_selected"@ != "hist.select_multiple"@,
        "hist.delete_selected"@ != "hist.all"@,
        "hist.delete_selected"@ != "hist.selected_count"@,
        "hist.cancel"@ != "tray.show"@,
        "hist.cancel"@ != "tray.reload_config"@,
        "hist.cancel"@ != "tray.register_tel"@,
        "hist.cancel"@ != "tray.devtools"@,
        "hist.cancel"@ != "tray.open_config"@,
        "hist.cancel"@ != "tray.quit"@,
        "hist.cancel"@ != "popup.send_mail"@,
        "hist.cancel"@ != "mailto.subject"@,
        "hist.cancel"@ != "hist.select_multiple"@,
        "hist.cancel"@ != "hist.all"@,
        "hist.cancel"@ != "hist.selected_count"@,
        "hist.cancel"@ != "hist.delete_selected"@,
        "hist.confirm_delete"@ != "tray.show"@,
        "hist.confirm_delete"@ != "tray.reload_config"@,
        "hist.confirm_delete"@ != "tray.register_tel"@,
        "hist.confirm_delete"@ != "tray.devtools"@,
        "hist.confirm_delete"@ != "tray.open_config"@,
        "hist.confirm_delete"@ != "tray.quit"@,
        "hist.confirm_delete"@ != "popup.send_mail"@,
        "hist.confirm_delete"@ != "mailto.subject"@,
        "hist.confirm_delete"@ != "hist.select_multiple"@,
        "hist.confirm_delete"@ != "hist.all"@,
        "hist.confirm_delete"@ != "hist.selected_count"@,
        "hist.confirm_delete"@ != "hist.delete_selected"@,
        "hist.confirm_delete"@ != "hist.cancel"@,
        "hist.preparing"@ != "tray.show"@,
        "hist.preparing"@ != "tray.reload_config"@,
        "hist.preparing"@ != "tray.register_tel"@,
        "hist.preparing"@ != "tray.devtools"@,
        "hist.preparing"@ != "tray.open_config"@,
        "hist.preparing"@ != "tray.quit"@,
        "hist.preparing"@ != "popup.send_mail"@,
        "hist.preparing"@ != "mailto.subject"@,
        "hist.preparing"@ != "hist.select_multiple"@,
        "hist.preparing"@ != "hist.all"@,
        "hist.preparing"@ != "hist.selected_count"@,
        "hist.preparing"@ != "hist.delete_selected"@,
        "hist.preparing"@ != "hist.cancel"@,
        "hist.preparing"@ != "hist.confirm_delete"@,
        "hist.deleting"@ != "tray.show"@,
        "hist.deleting"@ != "tray.reload_config"@,
        "hist.deleting"@ != "tray.register_tel"@,
        "hist.deleting"@ != "tray.devtools"@,
        "hist.deleting"@ != "tray.open_config"@,
        "hist.deleting"@ != "tray.quit"@,
        "hist.deleting"@ != "popup.send_mail"@,
        "hist.deleting"@ != "mailto.subject"@,
        "hist.deleting"@ != "hist.select_multiple"@,
        "hist.deleting"@ != "hist.all"@,
        "hist.deleting"@ != "hist.selected_count"@,
        "hist.deleting"@ != "hist.delete_selected"@,
        "hist.deleting"@ != "hist.cancel"@,
        "hist.deleting"@ != "hist.confirm_delete"@,
        "hist.deleting"@ != "hist.preparing"@,
        "hist.deleted"@ != "tray.show"@,
        "hist.deleted"@ != "tray.reload_config"@,
        "hist.deleted"@ != "tray.register_tel"@,
        "hist.deleted"@ != "tray.devtools"@,
        "hist.deleted"@ != "tray.open_config"@,
        "hist.deleted"@ != "tray.quit"@,
        "hist.deleted"@ != "popup.send_mail"@,
        "hist.deleted"@ != "mailto.subject"@,
        "hist.deleted"@ != "hist.select_multiple"@,
        "hist.deleted"@ != "hist.all"@,
        "hist.deleted"@ != "hist.selected_count"@,
        "hist.deleted"@ != "hist.delete_selected"@,
        "hist.deleted"@ != "hist.cancel"@,
        "hist.deleted"@ != "hist.confirm_delete"@,
        "hist.deleted"@ != "hist.preparing"@,
        "hist.deleted"@ != "hist.deleting"@,
        "mailto.subject"@ != "tray.show"@,
        "mailto.subject"@ != "tray.reload_config"@,
        "mailto.subject"@ != "tray.register_tel"@,
        "mailto.subject"@ != "tray.devtools"@,
        "mailto.subject"@ != "tray.open_config"@,
        "mailto.subject"@ != "tray.quit"@,
        "mailto.subject"@ != "popup.send_mail"@,
{
    reveal_strlit("tray.show");
    reveal_strlit("tray.reload_config");
    reveal_strlit("tray.register_tel");
    reveal_strlit("tray.devtools");
    reveal_strlit("tray.open_config");
    reveal_strlit("tray.quit");
    reveal_strlit("popup.send_mail");
    reveal_strlit("mailto.subject");
    reveal_strlit("hist.select_multiple");
    reveal_strlit("hist.all");
    reveal_strlit("hist.selected_count");
    reveal_strlit("hist.delete_selected");
    reveal_strlit("hist.cancel");
    reveal_strlit("hist.confirm_delete");
    reveal_strlit("hist.preparing");
    reveal_strlit("hist.deleting");
    reveal_strlit("hist.deleted");
    reveal_strlit("setup.title");
    reveal_strlit("setup.prompt");
    reveal_strlit("setup.placeholder");
    reveal_strlit("setup.error_empty");
    reveal_strlit("setup.error_url");
    reveal_strlit("setup.save_error");
    reveal_strlit("setup.button");
    reveal_strlit("setup.saving");
    reveal_strlit("setup.restart_msg");
    reveal_strlit("setup.restart_title");
    assert("hist.select_multiple"@.len() == 20 && "tray.show"@.len() == 9);
    assert("hist.select_multiple"@.len() == 20 && "tray.reload_config"@.len() == 18);
    assert("hist.select_multiple"@.len() == 20 && "tray.register_tel"@.len() == 17);
    assert("hist.select_multiple"@.len() == 20 && "tray.devtools"@.len() == 13);
    assert("hist.select_multiple"@.len() == 20 && "tray.open_config"@.len() == 16);
    assert("hist.select_multiple"@.len() == 20 && "tray.quit"@.len() == 9);
    assert("hist.select_multiple"@.len() == 20 && "popup.send_mail"@.len() == 15);
    assert("hist.select_multiple"@.len() == 20 && "mailto.subject"@.len() == 14);
    assert("hist.all"@.len() == 8 && "tray.show"@.len() == 9);
    assert("hist.all"@.len() == 8 && "tray.reload_config"@.len() == 18);
    assert("hist.all"@.len() == 8 && "tray.register_tel"@.len() == 17);
    assert("hist.all"@.len() == 8 && "tray.devtools"@.len() == 13);
    assert("hist.all"@.len() == 8 && "tray.open_config"@.len() == 16);
    assert("hist.all"@.len() == 8 && "tray.quit"@.len() == 9);
    assert("hist.all"@.len() == 8 && "popup.send_mail"@.len() == 15);
    assert("hist.all"@.len() == 8 && "mailto.subject"@.len() == 14);
    assert("hist.all"@.len() == 8 && "hist.select_multiple"@.len() == 20);
    assert("hist.selected_count"@.len() == 19 && "tray.show"@.len() == 9);
    assert("hist.selected_count"@.len() == 19 && "tray.reload_config"@.len() == 18);
    assert("hist.selected_count"@.len() == 19 && "tray.register_tel"@.len() == 17);
    assert("hist.selected_count"@.len() == 19 && "tray.devtools"@.len() == 13);
    assert("hist.selected_count"@.len() == 19 && "tray.open_config"@.len() == 16);
    assert("hist.selected_count"@.len() == 19 && "tray.quit"@.len() == 9);
    assert("hist.selected_count"@.len() == 19 && "popup.send_mail"@.len() == 15);
    assert("hist.selected_count"@.len() == 19 && "mailto.subject"@.len() == 14);
    assert("hist.selected_count"@.len() == 19 && "hist.select_multiple"@.len() == 20);
    assert("hist.selected_count"@.len() == 19 && "hist.all"@.len() == 8);
    assert("hist.delete_selected"@.len() == 20 && "tray.show"@.len() == 9);
    assert("hist.delete_selected"@.len() == 20 && "tray.reload_config"@.len() == 18);
    assert("hist.delete_selected"@.len() == 20 && "tray.register_tel"@.len() == 17);
    assert("hist.delete_selected"@.len() == 20 && "tray.devtools"@.len() == 13);
    assert("hist.delete_selected"@.len() == 20 && "tray.open_config"@.len() == 16);
    assert("hist.delete_selected"@.len() == 20 && "tray.quit"@.len() == 9);
    assert("hist.delete_selected"@.len() == 20 && "popup.send_mail"@.len() == 15);
    assert("hist.delete_selected"@.len() == 20 && "mailto.subject"@.len() == 14);
    assert("hist.delete_selected"@[5] == 'd' && "hist.select_multiple"@[5] == 's');
    assert("hist.delete_selected"@.len() == 20 && "hist.all"@.len() == 8);
    assert("hist.delete_selected"@.len() == 20 && "hist.selected_count"@.len() == 19);
    assert("hist.cancel"@.len() == 11 && "tray.show"@.len() == 9);
    assert("hist.cancel"@.len() == 11 && "tray.reload_config"@.len() == 18);
    assert("hist.cancel"@.len() == 11 && "tray.register_tel"@.len() == 17);
    assert("hist.cancel"@.len() == 11 && "tray.devtools"@.len() == 13);
    assert("hist.cancel"@.len() == 11 && "tray.open_config"@.len() == 16);
    assert("hist.cancel"@.len() == 11 && "tray.quit"@.len() == 9);
    assert("hist.cancel"@.len() == 11 && "popup.send_mail"@.len() == 15);
    assert("hist.cancel"@.len() == 11 && "mailto.subject"@.len() == 14);
    assert("hist.cancel"@.len() == 11 && "hist.select_multiple"@.len() == 20);
    assert("hist.cancel"@.len() == 11 && "hist.all"@.len() == 8);
    assert("hist.cancel"@.len() == 11 && "hist.selected_count"@.len() == 19);
    assert("hist.cancel"@.len() == 11 && "hist.delete_selected"@.len() == 20);
    assert("hist.confirm_delete"@.len() == 19 && "tray.show"@.len() == 9);
    assert("hist.confirm_delete"@.len() == 19 && "tray.reload_config"@.len() == 18);
    assert("hist.confirm_delete"@.len() == 19 && "tray.register_tel"@.len() == 17);
    assert("hist.confirm_delete"@.len() == 19 && "tray.devtools"@.len() == 13);
    assert("hist.confirm_delete"@.len() == 19 && "tray.open_config"@.len() == 16);
    assert("hist.confirm_delete"@.len() == 19 && "tray.quit"@.len() == 9);
    assert("hist.confirm_delete"@.len() == 19 && "popup.send_mail"@.len() == 15);
    assert("hist.confirm_delete"@.len() == 19 && "mailto.subject"@.len() == 14);
    assert("hist.confirm_delete"@.len() == 19 && "hist.select_multiple"@.len() == 20);
    assert("hist.confirm_delete"@.len() == 19 && "hist.all"@.len() == 8);
    assert("hist.confirm_delete"@[5] == 'c' && "hist.selected_count"@[5] == 's');
    assert("hist.confirm_delete"@.len() == 19 && "hist.delete_selected"@.len() == 20);
    assert("hist.confirm_delete"@.len() == 19 && "hist.cancel"@.len() == 11);
    assert("hist.preparing"@.len() == 14 && "tray.show"@.len() == 9);
    assert("hist.preparing"@.len() == 14 && "tray.reload_config"@.len() == 18);
    assert("hist.preparing"@.len() == 14 && "tray.register_tel"@.len() == 17);
    assert("hist.preparing"@.len() == 14 && "tray.devtools"@.len() == 13);
    assert("hist.preparing"@.len() == 14 && "tray.open_config"@.len() == 16);
    assert("hist.preparing"@.len() == 14 && "tray.quit"@.len() == 9);
    assert("hist.preparing"@.len() == 14 && "popup.send_mail"@.len() == 15);
    assert("hist.preparing"@[0] == 'h' && "mailto.subject"@[0] == 'm');
    assert("hist.preparing"@.len() == 14 && "hist.select_multiple"@.len() == 20);
    assert("hist.preparing"@.len() == 14 && "hist.all"@.len() == 8);
    assert("hist.preparing"@.len() == 14 && "hist.selected_count"@.len() == 19);
    assert("hist.preparing"@.len() == 14 && "hist.delete_selected"@.len() == 20);
    assert("hist.preparing"@.len() == 14 && "hist.cancel"@.len() == 11);
    assert("hist.preparing"@.len() == 14 && "hist.confirm_delete"@.len() == 19);
    assert("hist.deleting"@.len() == 13 && "tray.show"@.len() == 9);
    assert("hist.deleting"@.len() == 13 && "tray.reload_config"@.len() == 18);
    assert("hist.deleting"@.len() == 13 && "tray.register_tel"@.len() == 17);
    assert("hist.deleting"@[0] == 'h' && "tray.devtools"@[0] == 't');
    assert("hist.deleting"@.len() == 13 && "tray.open_config"@.len() == 16);
    assert("hist.deleting"@.len() == 13 && "tray.quit"@.len() == 9);
    assert("hist.deleting"@.len() == 13 && "popup.send_mail"@.len() == 15);
    assert("hist.deleting"@.len() == 13 && "mailto.subject"@.len() == 14);
    assert("hist.deleting"@.len() == 13 && "hist.select_multiple"@.len() == 20);
    assert("hist.deleting"@.len() == 13 && "hist.all"@.len() == 8);
    assert("hist.deleting"@.len() == 13 && "hist.selected_count"@.len() == 19);
    assert("hist.deleting"@.len() == 13 && "hist.delete_selected"@.len() == 20);
    assert("hist.deleting"@.len() == 13 && "hist.cancel"@.len() == 11);
    assert("hist.deleting"@.len() == 13 && "hist.confirm_delete"@.len() == 19);
    assert("hist.deleting"@.len() == 13 && "hist.preparing"@.len() == 14);
    assert("hist.deleted"@.len() == 12 && "tray.show"@.len() == 9);
    assert("hist.deleted"@.len() == 12 && "tray.reload_config"@.len() == 18);
    assert("hist.deleted"@.len() == 12 && "tray.register_tel"@.len() == 17);
    assert("hist.deleted"@.len() == 12 && "tray.devtools"@.len() == 13);
    assert("hist.deleted"@.len() == 12 && "tray.open_config"@.len() == 16);
    assert("hist.deleted"@.len() == 12 && "tray.quit"@.len() == 9);
    assert("hist.deleted"@.len() == 12 && "popup.send_mail"@.len() == 15);
    assert("hist.deleted"@.len() == 12 && "mailto.subject"@.len() == 14);
    assert("hist.deleted"@.len() == 12 && "hist.select_multiple"@.len() == 20);
    assert("hist.deleted"@.len() == 12 && "hist.all"@.len() == 8);
    assert("hist.deleted"@.len() == 12 && "hist.selected_count"@.len() == 19);
    assert("hist.deleted"@.len() == 12 && "hist.delete_selected"@.len() == 20);
    assert("hist.deleted"@.len() == 12 && "hist.cancel"@.len() == 11);
    assert("hist.deleted"@.len() == 12 && "hist.confirm_delete"@.len() == 19);
    assert("hist.deleted"@.len() == 12 && "hist.preparing"@.len() == 14);
    assert("hist.deleted"@.len() == 12 && "hist.deleting"@.len() == 13);
    assert("mailto.subject"@.len() == 14 && "tray.show"@.len() == 9);
    assert("mailto.subject"@.len() == 14 && "tray.reload_config"@.len() == 18);
    assert("mailto.subject"@.len() == 14 && "tray.register_tel"@.len() == 17);
    assert("mailto.subject"@.len() == 14 && "tray.devtools"@.len() == 13);
    assert("mailto.subject"@.len() == 14 && "tray.open_config"@.len() == 16);
    assert("mailto.subject"@.len() == 14 && "tray.quit"@.len() == 9);
    assert("mailto.subject"@.len() == 14 && "popup.send_mail"@.len() == 15);
}

/// The EN table keeps to `table_shape`.
#[verifier::rlimit(40)]
pub proof fn lemma_en_table_shape(key: Seq<char>)
    ensures
        table_shape(|k: Seq<char>| en_entry(k), key),
{
    lemma_keys_distinct();
    reveal_strlit("???");
    assert("???"@.len() == 3);
    reveal_strlit("Show");
    assert("Show"@.len() == 4);
    reveal_strlit("Reload config");
    assert("Reload config"@.len() == 13);
    reveal_strlit("Register as tel: handler");
    assert("Register as tel: handler"@.len() == 24);
    reveal_strlit("DevTools (F12)");
    assert("DevTools (F12)"@.len() == 14);
    reveal_strlit("Open configuration");
    assert("Open configuration"@.len() == 18);
    reveal_strlit("Quit");
    assert("Quit"@.len() == 4);
    reveal_strlit("✉  Send callback mail");
    assert("✉  Send callback mail"@.len() == 21);
    reveal_strlit("Please call back: {name} {number}");
    assert("Please call back: {name} {number}"@.len() == 33);
    reveal_strlit("Select multiple");
    assert("Select multiple"@.len() == 15);
    reveal_strlit("All");
    assert("All"@.len() == 3);
    assert("All"@[0] == 'A');
    reveal_strlit("selected");
    assert("selected"@.len() == 8);
    reveal_strlit("Delete selected");
    assert("Delete selected"@.len() == 15);
    reveal_strlit("Cancel");
    assert("Cancel"@.len() == 6);
    reveal_strlit("Do you want to delete {count} entries?");
    assert("Do you want to delete {count} entries?"@.len() == 38);
    reveal_strlit("Preparing...");
    assert("Preparing..."@.len() == 12);
    reveal_strlit("Deleting");
    assert("Deleting"@.len() == 8);
    reveal_strlit("deleted!");
    assert("deleted!"@.len() == 8);
    reveal_strlit("Set up 4dy Client");
    assert("Set up 4dy Client"@.len() == 17);
    reveal_strlit("Enter the URL of your 3CX Web Client:");
    assert("Enter the URL of your 3CX Web Client:"@.len() == 37);
    reveal_strlit("https://my-company.3cx.com");
    assert("https://my-company.3cx.com"@.len() == 26);
    reveal_strlit("Please enter a URL.");
    assert("Please enter a URL."@.len() == 19);
    reveal_strlit("Please enter a valid URL (e.g. https://my-company.3cx.com)");
    assert("Please enter a valid URL (e.g. https://my-company.3cx.com)"@.len() == 58);
    reveal_strlit("Error saving:");
    assert("Error saving:"@.len() == 13);
    reveal_strlit("Continue");
    assert("Continue"@.len() == 8);
    reveal_strlit("Saving...");
    assert("Saving..."@.len() == 9);
    reveal_strlit("Configuration saved successfully.\nPlease restart the application.");
    assert("Configuration saved successfully.\nPlease restart the application."@.len() == 65);
    reveal_strlit("4dy Client");
    assert("4dy Client"@.len() == 10);
    reveal_strlit("{name}");
    assert("Please call back: {name} {number}"@.subrange(18int, 18int + "{name}"@.len()) =~= "{name}"@);
    reveal_strlit("{number}");
    assert("Please call back: {name} {number}"@.subrange(25int, 25int + "{number}"@.len()) =~= "{number}"@);
    reveal_strlit("{count}");
    assert("Do you want to delete {count} entries?"@.subrange(22int, 22int + "{count}"@.len()) =~= "{count}"@);
}

/// The DE table keeps to `table_shape`.
#[verifier::rlimit(40)]
pub proof fn lemma_de_table_shape(key: Seq<char>)
    ensures
        table_shape(|k: Seq<char>| de_entry(k), key),
{
    lemma_keys_distinct();
    reveal_strlit("???");
    assert("???"@.len() == 3);
    reveal_strlit("Anzeigen");
    assert("Anzeigen"@.len() == 8);
    reveal_strlit("Config neu laden");
    assert("Config neu laden"@.len() == 16);
    reveal_strlit("Als tel: Handler registrieren");
    assert("Als tel: Handler registrieren"@.len() == 29);
    reveal_strlit("DevTools (F12)");
    assert("DevTools (F12)"@.len() == 14);
    reveal_strlit("Konfiguration öffnen");
    assert("Konfiguration öffnen"@.len() == 20);
    reveal_strlit("Beenden");
    assert("Beenden"@.len() == 7);
    reveal_strlit("✉  Rückruf-Mail senden");
    assert("✉  Rückruf-Mail senden"@.len() == 22);
    reveal_strlit("Bitte zurückrufen: {name} {number}");
    assert("Bitte zurückrufen: {name} {number}"@.len() == 34);
    reveal_strlit("Mehrere auswählen");
    assert("Mehrere auswählen"@.len() == 17);
    reveal_strlit("Alle");
    assert("Alle"@.len() == 4);
    reveal_strlit("ausgewählt");
    assert("ausgewählt"@.len() == 10);
    reveal_strlit("Ausgewählte löschen");
    assert("Ausgewählte löschen"@.len() == 19);
    reveal_strlit("Abbrechen");
    assert("Abbrechen"@.len() == 9);
    reveal_strlit("Möchtest du {count} Einträge löschen?");
    assert("Möchtest du {count} Einträge löschen?"@.len() == 37);
    reveal_strlit("Vorbereiten...");
    assert("Vorbereiten..."@.len() == 14);
    reveal_strlit("Lösche");
    assert("Lösche"@.len() == 6);
    reveal_strlit("gelöscht!");
    assert("gelöscht!"@.len() == 9);
    reveal_strlit("4dy Client einrichten");
    assert("4dy Client einrichten"@.len() == 21);
    reveal_strlit("Bitte gib die URL deines 3CX Web-Clients ein:");
    assert("Bitte gib die URL deines 3CX Web-Clients ein:"@.len() == 45);
    reveal_strlit("https://meine-firma.3cx.de");
    assert("https://meine-firma.3cx.de"@.len() == 26);
    reveal_strlit("Bitte eine URL eingeben.");
    assert("Bitte eine URL eingeben."@.len() == 24);
    reveal_strlit("Bitte eine gültige URL eingeben (z.B. https://meine-firma.3cx.de)");
    assert("Bitte eine gültige URL eingeben (z.B. https://meine-firma.3cx.de)"@.len() == 65);
    reveal_strlit("Fehler beim Speichern:");
    assert("Fehler beim Speichern:"@.len() == 22);
    reveal_strlit("Weiter");
    assert("Weiter"@.len() == 6);
    reveal_strlit("Speichere...");
    assert("Speichere..."@.len() == 12);
    reveal_strlit("Konfiguration gespeichert.\nBitte starte die Anwendung neu.");
    assert("Konfiguration gespeichert.\nBitte starte die Anwendung neu."@.len() == 58);
    reveal_strlit("4dy Client");
    assert("4dy Client"@.len() == 10);
    reveal_strlit("{name}");
    assert("Bitte zurückrufen: {name} {number}"@.subrange(19int, 19int + "{name}"@.len()) =~= "{name}"@);
    reveal_strlit("{number}");
    assert("Bitte zurückrufen: {name} {number}"@.subrange(26int, 26int + "{number}"@.len()) =~= "{number}"@);
    reveal_strlit("{count}");
    assert("Möchtest du {count} Einträge löschen?"@.subrange(12int, 12int + "{count}"@.len()) =~= "{count}"@);
}

/// The FR table keeps to `table_shape`.
#[verifier::rlimit(40)]
pub proof fn lemma_fr_table_shape(key: Seq<char>)
    ensures
        table_shape(|k: Seq<char>| fr_entry(k), key),
{
    lemma_keys_distinct();
    reveal_strlit("???");
    assert("???"@.len() == 3);
    reveal_strlit("Afficher");
    assert("Afficher"@.len() == 8);
    reveal_strlit("Recharger la config");
    assert("Recharger la config"@.len() == 19);
    reveal_strlit("Enregistrer comme gestionnaire tel:");
    assert("Enregistrer comme gestionnaire tel:"@.len() == 35);
    reveal_strlit("DevTools (F12)");
    assert("DevTools (F12)"@.len() == 14);
    reveal_strlit("Ouvrir la configuration");
    assert("Ouvrir la configuration"@.len() == 23);
    reveal_strlit("Quitter");
    assert("Quitter"@.len() == 7);
    reveal_strlit("✉  Envoyer un mail de rappel");
    assert("✉  Envoyer un mail de rappel"@.len() == 28);
    reveal_strlit("Merci de rappeler : {name} {number}");
    assert("Merci de rappeler : {name} {number}"@.len() == 35);
    reveal_strlit("Sélection multiple");
    assert("Sélection multiple"@.len() == 18);
    reveal_strlit("Tous");
    assert("Tous"@.len() == 4);
    reveal_strlit("sélectionné(s)");
    assert("sélectionné(s)"@.len() == 14);
    reveal_strlit("Supprimer la sélection");
    assert("Supprimer la sélection"@.len() == 22);
    reveal_strlit("Annuler");
    assert("Annuler"@.len() == 7);
    reveal_strlit("Voulez-vous supprimer {count} entrées ?");
    assert("Voulez-vous supprimer {count} entrées ?"@.len() == 39);
    reveal_strlit("Préparation...");
    assert("Préparation..."@.len() == 14);
    reveal_strlit("Suppression");
    assert("Suppression"@.len() == 11);
    reveal_strlit("supprimé(s) !");
    assert("supprimé(s) !"@.len() == 13);
    reveal_strlit("Configurer 4dy Client");
    assert("Configurer 4dy Client"@.len() == 21);
    reveal_strlit("Entrez l'URL de votre client web 3CX :");
    assert("Entrez l'URL de votre client web 3CX :"@.len() == 38);
    reveal_strlit("https://mon-entreprise.3cx.fr");
    assert("https://mon-entreprise.3cx.fr"@.len() == 29);
    reveal_strlit("Veuillez entrer une URL.");
    assert("Veuillez entrer une URL."@.len() == 24);
    reveal_strlit("Veuillez entrer une URL valide");
    assert("Veuillez entrer une URL valide"@.len() == 30);
    reveal_strlit("Erreur lors de la sauvegarde :");
    assert("Erreur lors de la sauvegarde :"@.len() == 30);
    reveal_strlit("Continuer");
    assert("Continuer"@.len() == 9);
    reveal_strlit("Enregistrement...");
    assert("Enregistrement..."@.len() == 17);
    reveal_strlit("{name}");
    assert("Merci de rappeler : {name} {number}"@.subrange(20int, 20int + "{name}"@.len()) =~= "{name}"@);
    reveal_strlit("{number}");
    assert("Merci de rappeler : {name} {number}"@.subrange(27int, 27int + "{number}"@.len()) =~= "{number}"@);
    reveal_strlit("{count}");
    assert("Voulez-vous supprimer {count} entrées ?"@.subrange(22int, 22int + "{count}"@.len()) =~= "{count}"@);
}

/// The IT table keeps to `table_shape`.
#[verifier::rlimit(40)]
pub proof fn lemma_it_table_shape(key: Seq<char>)
    ensures
        table_shape(|k: Seq<char>| it_entry(k), key),
{
    lemma_keys_distinct();
    reveal_strlit("???");
    assert("???"@.len() == 3);
    reveal_strlit("Mostra");
    assert("Mostra"@.len() == 6);
    reveal_strlit("Ricarica config");
    assert("Ricarica config"@.len() == 15);
    reveal_strlit("Registra come gestore tel:");
    assert("Registra come gestore tel:"@.len() == 26);
    reveal_strlit("DevTools (F12)");
    assert("DevTools (F12)"@.len() == 14);
    reveal_strlit("Apri configurazione");
    assert("Apri configurazione"@.len() == 19);
    reveal_strlit("Esci");
    assert("Esci"@.len() == 4);
    reveal_strlit("✉  Invia mail di richiamata");
    assert("✉  Invia mail di richiamata"@.len() == 27);
    reveal_strlit("Si prega di richiamare: {name} {number}");
    assert("Si prega di richiamare: {name} {number}"@.len() == 39);
    reveal_strlit("Selezione multipla");
    assert("Selezione multipla"@.len() == 18);
    reveal_strlit("Tutti");
    assert("Tutti"@.len() == 5);
    reveal_strlit("selezionato/i");
    assert("selezionato/i"@.len() == 13);
    reveal_strlit("Elimina selezionati");
    assert("Elimina selezionati"@.len() == 19);
    reveal_strlit("Annulla");
    assert("Annulla"@.len() == 7);
    reveal_strlit("Vuoi eliminare {count} voci?");
    assert("Vuoi eliminare {count} voci?"@.len() == 28);
    reveal_strlit("Preparazione...");
    assert("Preparazione..."@.len() == 15);
    reveal_strlit("Eliminazione");
    assert("Eliminazione"@.len() == 12);
    reveal_strlit("eliminato/i!");
    assert("eliminato/i!"@.len() == 12);
    reveal_strlit("Configura 4dy Client");
    assert("Configura 4dy Client"@.len() == 20);
    reveal_strlit("Inserisci l'URL del tuo client web 3CX:");
    assert("Inserisci l'URL del tuo client web 3CX:"@.len() == 39);
    reveal_strlit("https://mia-azienda.3cx.it");
    assert("https://mia-azienda.3cx.it"@.len() == 26);
    reveal_strlit("Inserisci un URL.");
    assert("Inserisci un URL."@.len() == 17);
    reveal_strlit("Inserisci un URL valido");
    assert("Inserisci un URL valido"@.len() == 23);
    reveal_strlit("Errore nel salvataggio:");
    assert("Errore nel salvataggio:"@.len() == 23);
    reveal_strlit("Continua");
    assert("Continua"@.len() == 8);
    reveal_strlit("Salvataggio...");
    assert("Salvataggio..."@.len() == 14);
    reveal_strlit("{name}");
    assert("Si prega di richiamare: {name} {number}"@.subrange(24int, 24int + "{name}"@.len()) =~= "{name}"@);
    reveal_strlit("{number}");
    assert("Si prega di richiamare: {name} {number}"@.subrange(31int, 31int + "{number}"@.len()) =~= "{number}"@);
    reveal_strlit("{count}");
    assert("Vuoi eliminare {count} voci?"@.subrange(15int, 15int + "{count}"@.len()) =~= "{count}"@);
}

/// The ES table keeps to `table_shape`.
#[verifier::rlimit(40)]
pub proof fn lemma_es_table_shape(key: Seq<char>)
    ensures
        table_shape(|k: Seq<char>| es_entry(k), key),
{
    lemma_keys_distinct();
    reveal_strlit("???");
    assert("???"@.len() == 3);
    reveal_strlit("Mostrar");
    assert("Mostrar"@.len() == 7);
    reveal_strlit("Recargar config");
    assert("Recargar config"@.len() == 15);
    reveal_strlit("Registrar como gestor tel:");
    assert("Registrar como gestor tel:"@.len() == 26);
    reveal_strlit("DevTools (F12)");
    assert("DevTools (F12)"@.len() == 14);
    reveal_strlit("Abrir configuración");
    assert("Abrir configuración"@.len() == 19);
    reveal_strlit("Salir");
    assert("Salir"@.len() == 5);
    reveal_strlit("✉  Enviar correo de devolución");
    assert("✉  Enviar correo de devolución"@.len() == 30);
    reveal_strlit("Por favor devolver llamada: {name} {number}");
    assert("Por favor devolver llamada: {name} {number}"@.len() == 43);
    reveal_strlit("Selección múltiple");
    assert("Selección múltiple"@.len() == 18);
    reveal_strlit("Todos");
    assert("Todos"@.len() == 5);
    reveal_strlit("seleccionado(s)");
    assert("seleccionado(s)"@.len() == 15);
    reveal_strlit("Eliminar seleccionados");
    assert("Eliminar seleccionados"@.len() == 22);
    reveal_strlit("Cancelar");
    assert("Cancelar"@.len() == 8);
    reveal_strlit("¿Desea eliminar {count} entradas?");
    assert("¿Desea eliminar {count} entradas?"@.len() == 33);
    reveal_strlit("Preparando...");
    assert("Preparando..."@.len() == 13);
    reveal_strlit("Eliminando");
    assert("Eliminando"@.len() == 10);
    reveal_strlit("eliminado(s)!");
    assert("eliminado(s)!"@.len() == 13);
    reveal_strlit("Configurar 4dy Client");
    assert("Configurar 4dy Client"@.len() == 21);
    reveal_strlit("Introduce la URL de tu cliente web 3CX:");
    assert("Introduce la URL de tu cliente web 3CX:"@.len() == 39);
    reveal_strlit("https://mi-empresa.3cx.es");
    assert("https://mi-empresa.3cx.es"@.len() == 25);
    reveal_strlit("Introduce una URL.");
    assert("Introduce una URL."@.len() == 18);
    reveal_strlit("Introduce una URL válida");
    assert("Introduce una URL válida"@.len() == 24);
    reveal_strlit("Error al guardar:");
    assert("Error al guardar:"@.len() == 17);
    reveal_strlit("Continuar");
    assert("Continuar"@.len() == 9);
    reveal_strlit("Guardando...");
    assert("Guardando..."@.len() == 12);
    reveal_strlit("{name}");
    assert("Por favor devolver llamada: {name} {number}"@.subrange(28int, 28int + "{name}"@.len()) =~= "{name}"@);
    reveal_strlit("{number}");
    assert("Por favor devolver llamada: {name} {number}"@.subrange(35int, 35int + "{number}"@.len()) =~= "{number}"@);
    reveal_strlit("{count}");
    assert("¿Desea eliminar {count} entradas?"@.subrange(16int, 16int + "{count}"@.len()) =~= "{count}"@);
}

/// The NL table keeps to `table_shape`.
#[verifier::rlimit(40)]
pub proof fn lemma_nl_table_shape(key: Seq<char>)
    ensures
        table_shape(|k: Seq<char>| nl_entry(k), key),
{
    lemma_keys_distinct();
    reveal_strlit("???");
    assert("???"@.len() == 3);
    reveal_strlit("Tonen");
    assert("Tonen"@.len() == 5);
    reveal_strlit("Config herladen");
    assert("Config herladen"@.len() == 15);
    reveal_strlit("Registreren als tel: handler");
    assert("Registreren als tel: handler"@.len() == 28);
    reveal_strlit("DevTools (F12)");
    assert("DevTools (F12)"@.len() == 14);
    reveal_strlit("Configuratie openen");
    assert("Configuratie openen"@.len() == 19);
    reveal_strlit("Afsluiten");
    assert("Afsluiten"@.len() == 9);
    reveal_strlit("✉  Terugbelmail verzenden");
    assert("✉  Terugbelmail verzenden"@.len() == 25);
    reveal_strlit("Graag terugbellen: {name} {number}");
    assert("Graag terugbellen: {name} {number}"@.len() == 34);
    reveal_strlit("Meerdere selecteren");
    assert("Meerdere selecteren"@.len() == 19);
    reveal_strlit("Alle");
    assert("Alle"@.len() == 4);
    reveal_strlit("geselecteerd");
    assert("geselecteerd"@.len() == 12);
    reveal_strlit("Selectie verwijderen");
    assert("Selectie verwijderen"@.len() == 20);
    reveal_strlit("Annuleren");
    assert("Annuleren"@.len() == 9);
    reveal_strlit("Wilt u {count} items verwijderen?");
    assert("Wilt u {count} items verwijderen?"@.len() == 33);
    reveal_strlit("Voorbereiden...");
    assert("Voorbereiden..."@.len() == 15);
    reveal_strlit("Verwijderen");
    assert("Verwijderen"@.len() == 11);
    reveal_strlit("verwijderd!");
    assert("verwijderd!"@.len() == 11);
    reveal_strlit("4dy Client instellen");
    assert("4dy Client instellen"@.len() == 20);
    reveal_strlit("Voer de URL van uw 3CX-webclient in:");
    assert("Voer de URL van uw 3CX-webclient in:"@.len() == 36);
    reveal_strlit("https://mijn-bedrijf.3cx.nl");
    assert("https://mijn-bedrijf.3cx.nl"@.len() == 27);
    reveal_strlit("Voer een URL in.");
    assert("Voer een URL in."@.len() == 16);
    reveal_strlit("Voer een geldige URL in");
    assert("Voer een geldige URL in"@.len() == 23);
    reveal_strlit("Fout bij opslaan:");
    assert("Fout bij opslaan:"@.len() == 17);
    reveal_strlit("Doorgaan");
    assert("Doorgaan"@.len() == 8);
    reveal_strlit("Opslaan...");
    assert("Opslaan..."@.len() == 10);
    reveal_strlit("{name}");
    assert("Graag terugbellen: {name} {number}"@.subrange(19int, 19int + "{name}"@.len()) =~= "{name}"@);
    reveal_strlit("{number}");
    assert("Graag terugbellen: {name} {number}"@.subrange(26int, 26int + "{number}"@.len()) =~= "{number}"@);
    reveal_strlit("{count}");
    assert("Wilt u {count} items verwijderen?"@.subrange(7int, 7int + "{count}"@.len()) =~= "{count}"@);
}

/// The PT table keeps to `table_shape`.
#[verifier::rlimit(40)]
pub proof fn lemma_pt_table_shape(key: Seq<char>)
    ensures
        table_shape(|k: Seq<char>| pt_entry(k), key),
{
    lemma_keys_distinct();
    reveal_strlit("???");
    assert("???"@.len() == 3);
    reveal_strlit("Mostrar");
    assert("Mostrar"@.len() == 7);
    reveal_strlit("Recarregar config");
    assert("Recarregar config"@.len() == 17);
    reveal_strlit("Registar como gestor tel:");
    assert("Registar como gestor tel:"@.len() == 25);
    reveal_strlit("DevTools (F12)");
    assert("DevTools (F12)"@.len() == 14);
    reveal_strlit("Abrir configuração");
    assert("Abrir configuração"@.len() == 18);
    reveal_strlit("Sair");
    assert("Sair"@.len() == 4);
    reveal_strlit("✉  Enviar email de retorno");
    assert("✉  Enviar email de retorno"@.len() == 26);
    reveal_strlit("Por favor retornar: {name} {number}");
    assert("Por favor retornar: {name} {number}"@.len() == 35);
    reveal_strlit("Selecionar múltiplos");
    assert("Selecionar múltiplos"@.len() == 20);
    reveal_strlit("Todos");
    assert("Todos"@.len() == 5);
    reveal_strlit("selecionado(s)");
    assert("selecionado(s)"@.len() == 14);
    reveal_strlit("Eliminar selecionados");
    assert("Eliminar selecionados"@.len() == 21);
    reveal_strlit("Cancelar");
    assert("Cancelar"@.len() == 8);
    reveal_strlit("Deseja eliminar {count} entradas?");
    assert("Deseja eliminar {count} entradas?"@.len() == 33);
    reveal_strlit("A preparar...");
    assert("A preparar..."@.len() == 13);
    reveal_strlit("A eliminar");
    assert("A eliminar"@.len() == 10);
    reveal_strlit("eliminado(s)!");
    assert("eliminado(s)!"@.len() == 13);
    reveal_strlit("Configurar 4dy Client");
    assert("Configurar 4dy Client"@.len() == 21);
    reveal_strlit("Introduza o URL do seu cliente web 3CX:");
    assert("Introduza o URL do seu cliente web 3CX:"@.len() == 39);
    reveal_strlit("https://minha-empresa.3cx.pt");
    assert("https://minha-empresa.3cx.pt"@.len() == 28);
    reveal_strlit("Introduza um URL.");
    assert("Introduza um URL."@.len() == 17);
    reveal_strlit("Introduza um URL válido");
    assert("Introduza um URL válido"@.len() == 23);
    reveal_strlit("Erro ao guardar:");
    assert("Erro ao guardar:"@.len() == 16);
    reveal_strlit("Continuar");
    assert("Continuar"@.len() == 9);
    reveal_strlit("A guardar...");
    assert("A guardar..."@.len() == 12);
    reveal_strlit("{name}");
    assert("Por favor retornar: {name} {number}"@.subrange(20int, 20int + "{name}"@.len()) =~= "{name}"@);
    reveal_strlit("{number}");
    assert("Por favor retornar: {name} {number}"@.subrange(27int, 27int + "{number}"@.len()) =~= "{number}"@);
    reveal_strlit("{count}");
    assert("Deseja eliminar {count} entradas?"@.subrange(16int, 16int + "{count}"@.len()) =~= "{count}"@);
}

/// The PL table keeps to `table_shape`.
#[verifier::rlimit(40)]
pub proof fn lemma_pl_table_shape(key: Seq<char>)
    ensures
        table_shape(|k: Seq<char>| pl_entry(k), key),
{
    lemma_keys_distinct();
    reveal_strlit("???");
    assert("???"@.len() == 3);
    reveal_strlit("Pokaż");
    assert("Pokaż"@.len() == 5);
    reveal_strlit("Przeładuj konfigurację");
    assert("Przeładuj konfigurację"@.len() == 22);
    reveal_strlit("Zarejestruj jako obsługę tel:");
    assert("Zarejestruj jako obsługę tel:"@.len() == 29);
    reveal_strlit("DevTools (F12)");
    assert("DevTools (F12)"@.len() == 14);
    reveal_strlit("Otwórz konfigurację");
    assert("Otwórz konfigurację"@.len() == 19);
    reveal_strlit("Zakończ");
    assert("Zakończ"@.len() == 7);
    reveal_strlit("✉  Wyślij mail zwrotny");
    assert("✉  Wyślij mail zwrotny"@.len() == 22);
    reveal_strlit("Proszę oddzwonić: {name} {number}");
    assert("Proszę oddzwonić: {name} {number}"@.len() == 33);
    reveal_strlit("Zaznacz wiele");
    assert("Zaznacz wiele"@.len() == 13);
    reveal_strlit("Wszystkie");
    assert("Wszystkie"@.len() == 9);
    reveal_strlit("zaznaczono");
    assert("zaznaczono"@.len() == 10);
    reveal_strlit("Usuń zaznaczone");
    assert("Usuń zaznaczone"@.len() == 15);
    reveal_strlit("Anuluj");
    assert("Anuluj"@.len() == 6);
    reveal_strlit("Czy chcesz usunąć {count} wpisów?");
    assert("Czy chcesz usunąć {count} wpisów?"@.len() == 33);
    reveal_strlit("Przygotowywanie...");
    assert("Przygotowywanie..."@.len() == 18);
    reveal_strlit("Usuwanie");
    assert("Usuwanie"@.len() == 8);
    reveal_strlit("usunięto!");
    assert("usunięto!"@.len() == 9);
    reveal_strlit("Konfiguracja 4dy Client");
    assert("Konfiguracja 4dy Client"@.len() == 23);
    reveal_strlit("Podaj URL klienta webowego 3CX:");
    assert("Podaj URL klienta webowego 3CX:"@.len() == 31);
    reveal_strlit("https://moja-firma.3cx.pl");
    assert("https://moja-firma.3cx.pl"@.len() == 25);
    reveal_strlit("Podaj URL.");
    assert("Podaj URL."@.len() == 10);
    reveal_strlit("Podaj prawidłowy URL");
    assert("Podaj prawidłowy URL"@.len() == 20);
    reveal_strlit("Błąd zapisu:");
    assert("Błąd zapisu:"@.len() == 12);
    reveal_strlit("Dalej");
    assert("Dalej"@.len() == 5);
    reveal_strlit("Zapisywanie...");
    assert("Zapisywanie..."@.len() == 14);
    reveal_strlit("{name}");
    assert("Proszę oddzwonić: {name} {number}"@.subrange(18int, 18int + "{name}"@.len()) =~= "{name}"@);
    reveal_strlit("{number}");
    assert("Proszę oddzwonić: {name} {number}"@.subrange(25int, 25int + "{number}"@.len()) =~= "{number}"@);
    reveal_strlit("{count}");
    assert("Czy chcesz usunąć {count} wpisów?"@.subrange(18int, 18int + "{count}"@.len()) =~= "{count}"@);
}

/// The CS table keeps to `table_shape`.
#[verifier::rlimit(40)]
pub proof fn lemma_cs_table_shape(key: Seq<char>)
    ensures
        table_shape(|k: Seq<char>| cs_entry(k), key),
{
    lemma_keys_distinct();
    reveal_strlit("???");
    assert("???"@.len() == 3);
    reveal_strlit("Zobrazit");
    assert("Zobrazit"@.len() == 8);
    reveal_strlit("Znovu načíst konfiguraci");
    assert("Znovu načíst konfiguraci"@.len() == 24);
    reveal_strlit("Zaregistrovat jako tel: handler");
    assert("Zaregistrovat jako tel: handler"@.len() == 31);
    reveal_strlit("DevTools (F12)");
    assert("DevTools (F12)"@.len() == 14);
    reveal_strlit("Otevřít konfiguraci");
    assert("Otevřít konfiguraci"@.len() == 19);
    reveal_strlit("Ukončit");
    assert("Ukončit"@.len() == 7);
    reveal_strlit("✉  Odeslat zpětný e-mail");
    assert("✉  Odeslat zpětný e-mail"@.len() == 24);
    reveal_strlit("Prosím zavolejte zpět: {name} {number}");
    assert("Prosím zavolejte zpět: {name} {number}"@.len() == 38);
    reveal_strlit("Vybrat více");
    assert("Vybrat více"@.len() == 11);
    reveal_strlit("Vše");
    assert("Vše"@.len() == 3);
    assert("Vše"@[0] == 'V');
    reveal_strlit("vybráno");
    assert("vybráno"@.len() == 7);
    reveal_strlit("Smazat vybrané");
    assert("Smazat vybrané"@.len() == 14);
    reveal_strlit("Zrušit");
    assert("Zrušit"@.len() == 6);
    reveal_strlit("Chcete smazat {count} položek?");
    assert("Chcete smazat {count} položek?"@.len() == 30);
    reveal_strlit("Příprava...");
    assert("Příprava..."@.len() == 11);
    reveal_strlit("Mazání");
    assert("Mazání"@.len() == 6);
    reveal_strlit("smazáno!");
    assert("smazáno!"@.len() == 8);
    reveal_strlit("Nastavení 4dy Client");
    assert("Nastavení 4dy Client"@.len() == 20);
    reveal_strlit("Zadejte URL vašeho 3CX webového klienta:");
    assert("Zadejte URL vašeho 3CX webového klienta:"@.len() == 40);
    reveal_strlit("https://moje-firma.3cx.cz");
    assert("https://moje-firma.3cx.cz"@.len() == 25);
    reveal_strlit("Zadejte URL.");
    assert("Zadejte URL."@.len() == 12);
    reveal_strlit("Zadejte platnou URL");
    assert("Zadejte platnou URL"@.len() == 19);
    reveal_strlit("Chyba při ukládání:");
    assert("Chyba při ukládání:"@.len() == 19);
    reveal_strlit("Pokračovat");
    assert("Pokračovat"@.len() == 10);
    reveal_strlit("Ukládání...");
    assert("Ukládání..."@.len() == 11);
    reveal_strlit("{name}");
    assert("Prosím zavolejte zpět: {name} {number}"@.subrange(23int, 23int + "{name}"@.len()) =~= "{name}"@);
    reveal_strlit("{number}");
    assert("Prosím zavolejte zpět: {name} {number}"@.subrange(30int, 30int + "{number}"@.len()) =~= "{number}"@);
    reveal_strlit("{count}");
    assert("Chcete smazat {count} položek?"@.subrange(14int, 14int + "{count}"@.len()) =~= "{count}"@);
}

/// The HU table keeps to `table_shape`.
#[verifier::rlimit(40)]
pub proof fn lemma_hu_table_shape(key: Seq<char>)
    ensures
        table_shape(|k: Seq<char>| hu_entry(k), key),
{
    lemma_keys_distinct();
    reveal_strlit("???");
    assert("???"@.len() == 3);
    reveal_strlit("Megjelenítés");
    assert("Megjelenítés"@.len() == 12);
    reveal_strlit("Konfiguráció újratöltése");
    assert("Konfiguráció újratöltése"@.len() == 24);
    reveal_strlit("Regisztráció tel: kezelőként");
    assert("Regisztráció tel: kezelőként"@.len() == 28);
    reveal_strlit("DevTools (F12)");
    assert("DevTools (F12)"@.len() == 14);
    reveal_strlit("Konfiguráció megnyitása");
    assert("Konfiguráció megnyitása"@.len() == 23);
    reveal_strlit("Kilépés");
    assert("Kilépés"@.len() == 7);
    reveal_strlit("✉  Visszahívás e-mail küldése");
    assert("✉  Visszahívás e-mail küldése"@.len() == 29);
    reveal_strlit("Kérjük hívjon vissza: {name} {number}");
    assert("Kérjük hívjon vissza: {name} {number}"@.len() == 37);
    reveal_strlit("Több kijelölése");
    assert("Több kijelölése"@.len() == 15);
    reveal_strlit("Összes");
    assert("Összes"@.len() == 6);
    reveal_strlit("kijelölve");
    assert("kijelölve"@.len() == 9);
    reveal_strlit("Kijelöltek törlése");
    assert("Kijelöltek törlése"@.len() == 18);
    reveal_strlit("Mégse");
    assert("Mégse"@.len() == 5);
    reveal_strlit("{count} bejegyzés törlése?");
    assert("{count} bejegyzés törlése?"@.len() == 26);
    reveal_strlit("Előkészítés...");
    assert("Előkészítés..."@.len() == 14);
    reveal_strlit("Törlés");
    assert("Törlés"@.len() == 6);
    reveal_strlit("törölve!");
    assert("törölve!"@.len() == 8);
    reveal_strlit("4dy Client beállítása");
    assert("4dy Client beállítása"@.len() == 21);
    reveal_strlit("Adja meg a 3CX webes kliens URL-jét:");
    assert("Adja meg a 3CX webes kliens URL-jét:"@.len() == 36);
    reveal_strlit("https://cegem.3cx.hu");
    assert("https://cegem.3cx.hu"@.len() == 20);
    reveal_strlit("Adjon meg egy URL-t.");
    assert("Adjon meg egy URL-t."@.len() == 20);
    reveal_strlit("Érvényes URL-t adjon meg");
    assert("Érvényes URL-t adjon meg"@.len() == 24);
    reveal_strlit("Mentési hiba:");
    assert("Mentési hiba:"@.len() == 13);
    reveal_strlit("Tovább");
    assert("Tovább"@.len() == 6);
    reveal_strlit("Mentés...");
    assert("Mentés..."@.len() == 9);
    reveal_strlit("{name}");
    assert("Kérjük hívjon vissza: {name} {number}"@.subrange(22int, 22int + "{name}"@.len()) =~= "{name}"@);
    reveal_strlit("{number}");
    assert("Kérjük hívjon vissza: {name} {number}"@.subrange(29int, 29int + "{number}"@.len()) =~= "{number}"@);
    reveal_strlit("{count}");
    assert("{count} bejegyzés törlése?"@.subrange(0int, 0int + "{count}"@.len()) =~= "{count}"@);
}

/// The SK table keeps to `table_shape`.
#[verifier::rlimit(40)]
pub proof fn lemma_sk_table_shape(key: Seq<char>)
    ensures
        table_shape(|k: Seq<char>| sk_entry(k), key),
{
    lemma_keys_distinct();
    reveal_strlit("???");
    assert("???"@.len() == 3);
    reveal_strlit("Zobraziť");
    assert("Zobraziť"@.len() == 8);
    reveal_strlit("Znovu načítať konfiguráciu");
    assert("Znovu načítať konfiguráciu"@.len() == 26);
    reveal_strlit("Zaregistrovať ako tel: handler");
    assert("Zaregistrovať ako tel: handler"@.len() == 30);
    reveal_strlit("DevTools (F12)");
    assert("DevTools (F12)"@.len() == 14);
    reveal_strlit("Otvoriť konfiguráciu");
    assert("Otvoriť konfiguráciu"@.len() == 20);
    reveal_strlit("Ukončiť");
    assert("Ukončiť"@.len() == 7);
    reveal_strlit("✉  Odoslať spätný e-mail");
    assert("✉  Odoslať spätný e-mail"@.len() == 24);
    reveal_strlit("Prosím zavolajte späť: {name} {number}");
    assert("Prosím zavolajte späť: {name} {number}"@.len() == 38);
    reveal_strlit("Vybrať viacero");
    assert("Vybrať viacero"@.len() == 14);
    reveal_strlit("Všetko");
    assert("Všetko"@.len() == 6);
    reveal_strlit("vybraných");
    assert("vybraných"@.len() == 9);
    reveal_strlit("Zmazať vybrané");
    assert("Zmazať vybrané"@.len() == 14);
    reveal_strlit("Zrušiť");
    assert("Zrušiť"@.len() == 6);
    reveal_strlit("Chcete zmazať {count} položiek?");
    assert("Chcete zmazať {count} položiek?"@.len() == 31);
    reveal_strlit("Príprava...");
    assert("Príprava..."@.len() == 11);
    reveal_strlit("Mazanie");
    assert("Mazanie"@.len() == 7);
    reveal_strlit("zmazaných!");
    assert("zmazaných!"@.len() == 10);
    reveal_strlit("Nastavenie 4dy Client");
    assert("Nastavenie 4dy Client"@.len() == 21);
    reveal_strlit("Zadajte URL vášho 3CX webového klienta:");
    assert("Zadajte URL vášho 3CX webového klienta:"@.len() == 39);
    reveal_strlit("https://moja-firma.3cx.sk");
    assert("https://moja-firma.3cx.sk"@.len() == 25);
    reveal_strlit("Zadajte URL.");
    assert("Zadajte URL."@.len() == 12);
    reveal_strlit("Zadajte platnú URL");
    assert("Zadajte platnú URL"@.len() == 18);
    reveal_strlit("Chyba pri ukladaní:");
    assert("Chyba pri ukladaní:"@.len() == 19);
    reveal_strlit("Pokračovať");
    assert("Pokračovať"@.len() == 10);
    reveal_strlit("Ukladanie...");
    assert("Ukladanie..."@.len() == 12);
    reveal_strlit("{name}");
    assert("Prosím zavolajte späť: {name} {number}"@.subrange(23int, 23int + "{name}"@.len()) =~= "{name}"@);
    reveal_strlit("{number}");
    assert("Prosím zavolajte späť: {name} {number}"@.subrange(30int, 30int + "{number}"@.len()) =~= "{number}"@);
    reveal_strlit("{count}");
    assert("Chcete zmazať {count} položiek?"@.subrange(14int, 14int + "{count}"@.len()) =~= "{count}"@);
}

/// The SL table keeps to `table_shape`.
#[verifier::rlimit(40)]
pub proof fn lemma_sl_table_shape(key: Seq<char>)
    ensures
        table_shape(|k: Seq<char>| sl_entry(k), key),
{
    lemma_keys_distinct();
    reveal_strlit("???");
    assert("???"@.len() == 3);
    reveal_strlit("Prikaži");
    assert("Prikaži"@.len() == 7);
    reveal_strlit("Ponovno naloži konfiguracijo");
    assert("Ponovno naloži konfiguracijo"@.len() == 28);
    reveal_strlit("Registriraj kot tel: handler");
    assert("Registriraj kot tel: handler"@.len() == 28);
    reveal_strlit("DevTools (F12)");
    assert("DevTools (F12)"@.len() == 14);
    reveal_strlit("Odpri konfiguracijo");
    assert("Odpri konfiguracijo"@.len() == 19);
    reveal_strlit("Izhod");
    assert("Izhod"@.len() == 5);
    reveal_strlit("✉  Pošlji povratno e-pošto");
    assert("✉  Pošlji povratno e-pošto"@.len() == 26);
    reveal_strlit("Prosimo pokličite nazaj: {name} {number}");
    assert("Prosimo pokličite nazaj: {name} {number}"@.len() == 40);
    reveal_strlit("Izberi več");
    assert("Izberi več"@.len() == 10);
    reveal_strlit("Vse");
    assert("Vse"@.len() == 3);
    assert("Vse"@[0] == 'V');
    reveal_strlit("izbranih");
    assert("izbranih"@.len() == 8);
    reveal_strlit("Izbriši izbrane");
    assert("Izbriši izbrane"@.len() == 15);
    reveal_strlit("Prekliči");
    assert("Prekliči"@.len() == 8);
    reveal_strlit("Ali želite izbrisati {count} vnosov?");
    assert("Ali želite izbrisati {count} vnosov?"@.len() == 36);
    reveal_strlit("Priprava...");
    assert("Priprava..."@.len() == 11);
    reveal_strlit("Brisanje");
    assert("Brisanje"@.len() == 8);
    reveal_strlit("izbrisanih!");
    assert("izbrisanih!"@.len() == 11);
    reveal_strlit("Nastavitev 4dy Client");
    assert("Nastavitev 4dy Client"@.len() == 21);
    reveal_strlit("Vnesite URL vašega 3CX spletnega odjemalca:");
    assert("Vnesite URL vašega 3CX spletnega odjemalca:"@.len() == 43);
    reveal_strlit("https://moje-podjetje.3cx.si");
    assert("https://moje-podjetje.3cx.si"@.len() == 28);
    reveal_strlit("Vnesite URL.");
    assert("Vnesite URL."@.len() == 12);
    reveal_strlit("Vnesite veljavni URL");
    assert("Vnesite veljavni URL"@.len() == 20);
    reveal_strlit("Napaka pri shranjevanju:");
    assert("Napaka pri shranjevanju:"@.len() == 24);
    reveal_strlit("Nadaljuj");
    assert("Nadaljuj"@.len() == 8);
    reveal_strlit("Shranjevanje...");
    assert("Shranjevanje..."@.len() == 15);
    reveal_strlit("{name}");
    assert("Prosimo pokličite nazaj: {name} {number}"@.subrange(25int, 25int + "{name}"@.len()) =~= "{name}"@);
    reveal_strlit("{number}");
    assert("Prosimo pokličite nazaj: {name} {number}"@.subrange(32int, 32int + "{number}"@.len()) =~= "{number}"@);
    reveal_strlit("{count}");
    assert("Ali želite izbrisati {count} vnosov?"@.subrange(21int, 21int + "{count}"@.len()) =~= "{count}"@);
}

/// The RO table keeps to `table_shape`.
#[verifier::rlimit(40)]
pub proof fn lemma_ro_table_shape(key: Seq<char>)
    ensures
        table_shape(|k: Seq<char>| ro_entry(k), key),
{
    lemma_keys_distinct();
    reveal_strlit("???");
    assert("???"@.len() == 3);
    reveal_strlit("Afișare");
    assert("Afișare"@.len() == 7);
    reveal_strlit("Reîncarcă config");
    assert("Reîncarcă config"@.len() == 16);
    reveal_strlit("Înregistrează ca handler tel:");
    assert("Înregistrează ca handler tel:"@.len() == 29);
    reveal_strlit("DevTools (F12)");
    assert("DevTools (F12)"@.len() == 14);
    reveal_strlit("Deschide configurația");
    assert("Deschide configurația"@.len() == 21);
    reveal_strlit("Ieșire");
    assert("Ieșire"@.len() == 6);
    reveal_strlit("✉  Trimite email de reapelare");
    assert("✉  Trimite email de reapelare"@.len() == 29);
    reveal_strlit("Vă rugăm sunați înapoi: {name} {number}");
    assert("Vă rugăm sunați înapoi: {name} {number}"@.len() == 39);
    reveal_strlit("Selectare multiplă");
    assert("Selectare multiplă"@.len() == 18);
    reveal_strlit("Toate");
    assert("Toate"@.len() == 5);
    reveal_strlit("selectate");
    assert("selectate"@.len() == 9);
    reveal_strlit("Șterge selectate");
    assert("Șterge selectate"@.len() == 16);
    reveal_strlit("Anulare");
    assert("Anulare"@.len() == 7);
    reveal_strlit("Doriți să ștergeți {count} intrări?");
    assert("Doriți să ștergeți {count} intrări?"@.len() == 35);
    reveal_strlit("Pregătire...");
    assert("Pregătire..."@.len() == 12);
    reveal_strlit("Ștergere");
    assert("Ștergere"@.len() == 8);
    reveal_strlit("șterse!");
    assert("șterse!"@.len() == 7);
    reveal_strlit("Configurare 4dy Client");
    assert("Configurare 4dy Client"@.len() == 22);
    reveal_strlit("Introduceți URL-ul clientului web 3CX:");
    assert("Introduceți URL-ul clientului web 3CX:"@.len() == 38);
    reveal_strlit("https://firma-mea.3cx.ro");
    assert("https://firma-mea.3cx.ro"@.len() == 24);
    reveal_strlit("Introduceți un URL.");
    assert("Introduceți un URL."@.len() == 19);
    reveal_strlit("Introduceți un URL valid");
    assert("Introduceți un URL valid"@.len() == 24);
    reveal_strlit("Eroare la salvare:");
    assert("Eroare la salvare:"@.len() == 18);
    reveal_strlit("Continuare");
    assert("Continuare"@.len() == 10);
    reveal_strlit("Salvare...");
    assert("Salvare..."@.len() == 10);
    reveal_strlit("{name}");
    assert("Vă rugăm sunați înapoi: {name} {number}"@.subrange(24int, 24int + "{name}"@.len()) =~= "{name}"@);
    reveal_strlit("{number}");
    assert("Vă rugăm sunați înapoi: {name} {number}"@.subrange(31int, 31int + "{number}"@.len()) =~= "{number}"@);
    reveal_strlit("{count}");
    assert("Doriți să ștergeți {count} intrări?"@.subrange(19int, 19int + "{count}"@.len()) =~= "{count}"@);
}

/// The BG table keeps to `table_shape`.
#[verifier::rlimit(40)]
pub proof fn lemma_bg_table_shape(key: Seq<char>)
    ensures
        table_shape(|k: Seq<char>| bg_entry(k), key),
{
    lemma_keys_distinct();
    reveal_strlit("???");
    assert("???"@.len() == 3);
    reveal_strlit("Покажи");
    assert("Покажи"@.len() == 6);
    reveal_strlit("Презареди конфигурацията");
    assert("Презареди конфигурацията"@.len() == 24);
    reveal_strlit("Регистрирай като tel: handler");
    assert("Регистрирай като tel: handler"@.len() == 29);
    reveal_strlit("DevTools (F12)");
    assert("DevTools (F12)"@.len() == 14);
    reveal_strlit("Отвори конфигурацията");
    assert("Отвори конфигурацията"@.len() == 21);
    reveal_strlit("Изход");
    assert("Изход"@.len() == 5);
    reveal_strlit("✉  Изпрати имейл за обратно обаждане");
    assert("✉  Изпрати имейл за обратно обаждане"@.len() == 36);
    reveal_strlit("Моля обадете се обратно: {name} {number}");
    assert("Моля обадете се обратно: {name} {number}"@.len() == 40);
    reveal_strlit("Избери няколко");
    assert("Избери няколко"@.len() == 14);
    reveal_strlit("Всички");
    assert("Всички"@.len() == 6);
    reveal_strlit("избрани");
    assert("избрани"@.len() == 7);
    reveal_strlit("Изтрий избраните");
    assert("Изтрий избраните"@.len() == 16);
    reveal_strlit("Отказ");
    assert("Отказ"@.len() == 5);
    reveal_strlit("Искате ли да изтриете {count} записа?");
    assert("Искате ли да изтриете {count} записа?"@.len() == 37);
    reveal_strlit("Подготовка...");
    assert("Подготовка..."@.len() == 13);
    reveal_strlit("Изтриване");
    assert("Изтриване"@.len() == 9);
    reveal_strlit("изтрити!");
    assert("изтрити!"@.len() == 8);
    reveal_strlit("Настройка на 4dy Client");
    assert("Настройка на 4dy Client"@.len() == 23);
    reveal_strlit("Въведете URL на вашия 3CX уеб клиент:");
    assert("Въведете URL на вашия 3CX уеб клиент:"@.len() == 37);
    reveal_strlit("https://moiata-firma.3cx.bg");
    assert("https://moiata-firma.3cx.bg"@.len() == 27);
    reveal_strlit("Въведете URL.");
    assert("Въведете URL."@.len() == 13);
    reveal_strlit("Въведете валиден URL");
    assert("Въведете валиден URL"@.len() == 20);
    reveal_strlit("Грешка при запазване:");
    assert("Грешка при запазване:"@.len() == 21);
    reveal_strlit("Продължи");
    assert("Продължи"@.len() == 8);
    reveal_strlit("Запазване...");
    assert("Запазване..."@.len() == 12);
    reveal_strlit("{name}");
    assert("Моля обадете се обратно: {name} {number}"@.subrange(25int, 25int + "{name}"@.len()) =~= "{name}"@);
    reveal_strlit("{number}");
    assert("Моля обадете се обратно: {name} {number}"@.subrange(32int, 32int + "{number}"@.len()) =~= "{number}"@);
    reveal_strlit("{count}");
    assert("Искате ли да изтриете {count} записа?"@.subrange(22int, 22int + "{count}"@.len()) =~= "{count}"@);
}

/// The HR table keeps to `table_shape`.
#[verifier::rlimit(40)]
pub proof fn lemma_hr_table_shape(key: Seq<char>)
    ensures
        table_shape(|k: Seq<char>| hr_entry(k), key),
{
    lemma_keys_distinct();
    reveal_strlit("???");
    assert("???"@.len() == 3);
    reveal_strlit("Prikaži");
    assert("Prikaži"@.len() == 7);
    reveal_strlit("Ponovno učitaj konfiguraciju");
    assert("Ponovno učitaj konfiguraciju"@.len() == 28);
    reveal_strlit("Registriraj kao tel: handler");
    assert("Registriraj kao tel: handler"@.len() == 28);
    reveal_strlit("DevTools (F12)");
    assert("DevTools (F12)"@.len() == 14);
    reveal_strlit("Otvori konfiguraciju");
    assert("Otvori konfiguraciju"@.len() == 20);
    reveal_strlit("Izlaz");
    assert("Izlaz"@.len() == 5);
    reveal_strlit("✉  Pošalji povratni e-mail");
    assert("✉  Pošalji povratni e-mail"@.len() == 26);
    reveal_strlit("Molimo nazovite: {name} {number}");
    assert("Molimo nazovite: {name} {number}"@.len() == 32);
    reveal_strlit("Odaberi više");
    assert("Odaberi više"@.len() == 12);
    reveal_strlit("Sve");
    assert("Sve"@.len() == 3);
    assert("Sve"@[0] == 'S');
    reveal_strlit("odabrano");
    assert("odabrano"@.len() == 8);
    reveal_strlit("Obriši odabrane");
    assert("Obriši odabrane"@.len() == 15);
    reveal_strlit("Odustani");
    assert("Odustani"@.len() == 8);
    reveal_strlit("Želite li obrisati {count} unosa?");
    assert("Želite li obrisati {count} unosa?"@.len() == 33);
    reveal_strlit("Priprema...");
    assert("Priprema..."@.len() == 11);
    reveal_strlit("Brisanje");
    assert("Brisanje"@.len() == 8);
    reveal_strlit("obrisano!");
    assert("obrisano!"@.len() == 9);
    reveal_strlit("Postavljanje 4dy Client");
    assert("Postavljanje 4dy Client"@.len() == 23);
    reveal_strlit("Unesite URL svog 3CX web klijenta:");
    assert("Unesite URL svog 3CX web klijenta:"@.len() == 34);
    reveal_strlit("https://moja-tvrtka.3cx.hr");
    assert("https://moja-tvrtka.3cx.hr"@.len() == 26);
    reveal_strlit("Unesite URL.");
    assert("Unesite URL."@.len() == 12);
    reveal_strlit("Unesite valjani URL");
    assert("Unesite valjani URL"@.len() == 19);
    reveal_strlit("Greška pri spremanju:");
    assert("Greška pri spremanju:"@.len() == 21);
    reveal_strlit("Nastavi");
    assert("Nastavi"@.len() == 7);
    reveal_strlit("Spremanje...");
    assert("Spremanje..."@.len() == 12);
    reveal_strlit("{name}");
    assert("Molimo nazovite: {name} {number}"@.subrange(17int, 17int + "{name}"@.len()) =~= "{name}"@);
    reveal_strlit("{number}");
    assert("Molimo nazovite: {name} {number}"@.subrange(24int, 24int + "{number}"@.len()) =~= "{number}"@);
    reveal_strlit("{count}");
    assert("Želite li obrisati {count} unosa?"@.subrange(19int, 19int + "{count}"@.len()) =~= "{count}"@);
}

/// The ET table keeps to `table_shape`.
#[verifier::rlimit(40)]
pub proof fn lemma_et_table_shape(key: Seq<char>)
    ensures
        table_shape(|k: Seq<char>| et_entry(k), key),
{
    lemma_keys_distinct();
    reveal_strlit("???");
    assert("???"@.len() == 3);
    reveal_strlit("Kuva");
    assert("Kuva"@.len() == 4);
    reveal_strlit("Laadi konfiguratsioon uuesti");
    assert("Laadi konfiguratsioon uuesti"@.len() == 28);
    reveal_strlit("Registreeri tel: käitlejana");
    assert("Registreeri tel: käitlejana"@.len() == 27);
    reveal_strlit("DevTools (F12)");
    assert("DevTools (F12)"@.len() == 14);
    reveal_strlit("Ava konfiguratsioon");
    assert("Ava konfiguratsioon"@.len() == 19);
    reveal_strlit("Välju");
    assert("Välju"@.len() == 5);
    reveal_strlit("✉  Saada tagasihelistamise e-kiri");
    assert("✉  Saada tagasihelistamise e-kiri"@.len() == 33);
    reveal_strlit("Palun helistage tagasi: {name} {number}");
    assert("Palun helistage tagasi: {name} {number}"@.len() == 39);
    reveal_strlit("Vali mitu");
    assert("Vali mitu"@.len() == 9);
    reveal_strlit("Kõik");
    assert("Kõik"@.len() == 4);
    reveal_strlit("valitud");
    assert("valitud"@.len() == 7);
    reveal_strlit("Kustuta valitud");
    assert("Kustuta valitud"@.len() == 15);
    reveal_strlit("Tühista");
    assert("Tühista"@.len() == 7);
    reveal_strlit("Kas soovite kustutada {count} kirjet?");
    assert("Kas soovite kustutada {count} kirjet?"@.len() == 37);
    reveal_strlit("Ettevalmistamine...");
    assert("Ettevalmistamine..."@.len() == 19);
    reveal_strlit("Kustutamine");
    assert("Kustutamine"@.len() == 11);
    reveal_strlit("kustutatud!");
    assert("kustutatud!"@.len() == 11);
    reveal_strlit("4dy Client seadistamine");
    assert("4dy Client seadistamine"@.len() == 23);
    reveal_strlit("Sisestage oma 3CX veebikliendi URL:");
    assert("Sisestage oma 3CX veebikliendi URL:"@.len() == 35);
    reveal_strlit("https://minu-ettevote.3cx.ee");
    assert("https://minu-ettevote.3cx.ee"@.len() == 28);
    reveal_strlit("Sisestage URL.");
    assert("Sisestage URL."@.len() == 14);
    reveal_strlit("Sisestage kehtiv URL");
    assert("Sisestage kehtiv URL"@.len() == 20);
    reveal_strlit("Salvestamise viga:");
    assert("Salvestamise viga:"@.len() == 18);
    reveal_strlit("Jätka");
    assert("Jätka"@.len() == 5);
    reveal_strlit("Salvestamine...");
    assert("Salvestamine..."@.len() == 15);
    reveal_strlit("{name}");
    assert("Palun helistage tagasi: {name} {number}"@.subrange(24int, 24int + "{name}"@.len()) =~= "{name}"@);
    reveal_strlit("{number}");
    assert("Palun helistage tagasi: {name} {number}"@.subrange(31int, 31int + "{number}"@.len()) =~= "{number}"@);
    reveal_strlit("{count}");
    assert("Kas soovite kustutada {count} kirjet?"@.subrange(22int, 22int + "{count}"@.len()) =~= "{count}"@);
}

/// The LV table keeps to `table_shape`.
#[verifier::rlimit(40)]
pub proof fn lemma_lv_table_shape(key: Seq<char>)
    ensures
        table_shape(|k: Seq<char>| lv_entry(k), key),
{
    lemma_keys_distinct();
    reveal_strlit("???");
    assert("???"@.len() == 3);
    reveal_strlit("Rādīt");
    assert("Rādīt"@.len() == 5);
    reveal_strlit("Pārlādēt konfigurāciju");
    assert("Pārlādēt konfigurāciju"@.len() == 22);
    reveal_strlit("Reģistrēt kā tel: apstrādātāju");
    assert("Reģistrēt kā tel: apstrādātāju"@.len() == 30);
    reveal_strlit("DevTools (F12)");
    assert("DevTools (F12)"@.len() == 14);
    reveal_strlit("Atvērt konfigurāciju");
    assert("Atvērt konfigurāciju"@.len() == 20);
    reveal_strlit("Iziet");
    assert("Iziet"@.len() == 5);
    reveal_strlit("✉  Sūtīt atzvana e-pastu");
    assert("✉  Sūtīt atzvana e-pastu"@.len() == 24);
    reveal_strlit("Lūdzu atzvaniet: {name} {number}");
    assert("Lūdzu atzvaniet: {name} {number}"@.len() == 32);
    reveal_strlit("Atlasīt vairākus");
    assert("Atlasīt vairākus"@.len() == 16);
    reveal_strlit("Visi");
    assert("Visi"@.len() == 4);
    reveal_strlit("atlasīts");
    assert("atlasīts"@.len() == 8);
    reveal_strlit("Dzēst atlasītos");
    assert("Dzēst atlasītos"@.len() == 15);
    reveal_strlit("Atcelt");
    assert("Atcelt"@.len() == 6);
    reveal_strlit("Vai vēlaties dzēst {count} ierakstus?");
    assert("Vai vēlaties dzēst {count} ierakstus?"@.len() == 37);
    reveal_strlit("Sagatavošana...");
    assert("Sagatavošana..."@.len() == 15);
    reveal_strlit("Dzēšana");
    assert("Dzēšana"@.len() == 7);
    reveal_strlit("dzēsts!");
    assert("dzēsts!"@.len() == 7);
    reveal_strlit("4dy Client iestatīšana");
    assert("4dy Client iestatīšana"@.len() == 22);
    reveal_strlit("Ievadiet sava 3CX tīmekļa klienta URL:");
    assert("Ievadiet sava 3CX tīmekļa klienta URL:"@.len() == 38);
    reveal_strlit("https://mans-uznemums.3cx.lv");
    assert("https://mans-uznemums.3cx.lv"@.len() == 28);
    reveal_strlit("Ievadiet URL.");
    assert("Ievadiet URL."@.len() == 13);
    reveal_strlit("Ievadiet derīgu URL");
    assert("Ievadiet derīgu URL"@.len() == 19);
    reveal_strlit("Saglabāšanas kļūda:");
    assert("Saglabāšanas kļūda:"@.len() == 19);
    reveal_strlit("Turpināt");
    assert("Turpināt"@.len() == 8);
    reveal_strlit("Saglabāšana...");
    assert("Saglabāšana..."@.len() == 14);
    reveal_strlit("{name}");
    assert("Lūdzu atzvaniet: {name} {number}"@.subrange(17int, 17int + "{name}"@.len()) =~= "{name}"@);
    reveal_strlit("{number}");
    assert("Lūdzu atzvaniet: {name} {number}"@.subrange(24int, 24int + "{number}"@.len()) =~= "{number}"@);
    reveal_strlit("{count}");
    assert("Vai vēlaties dzēst {count} ierakstus?"@.subrange(19int, 19int + "{count}"@.len()) =~= "{count}"@);
}

/// The LT table keeps to `table_shape`.
#[verifier::rlimit(40)]
pub proof fn lemma_lt_table_shape(key: Seq<char>)
    ensures
        table_shape(|k: Seq<char>| lt_entry(k), key),
{
    lemma_keys_distinct();
    reveal_strlit("???");
    assert("???"@.len() == 3);
    reveal_strlit("Rodyti");
    assert("Rodyti"@.len() == 6);
    reveal_strlit("Perkrauti konfigūraciją");
    assert("Perkrauti konfigūraciją"@.len() == 23);
    reveal_strlit("Registruoti kaip tel: tvarkyklę");
    assert("Registruoti kaip tel: tvarkyklę"@.len() == 31);
    reveal_strlit("DevTools (F12)");
    assert("DevTools (F12)"@.len() == 14);
    reveal_strlit("Atidaryti konfigūraciją");
    assert("Atidaryti konfigūraciją"@.len() == 23);
    reveal_strlit("Išeiti");
    assert("Išeiti"@.len() == 6);
    reveal_strlit("✉  Siųsti atgalinio skambučio el. laišką");
    assert("✉  Siųsti atgalinio skambučio el. laišką"@.len() == 40);
    reveal_strlit("Prašome perskambinti: {name} {number}");
    assert("Prašome perskambinti: {name} {number}"@.len() == 37);
    reveal_strlit("Pasirinkti kelis");
    assert("Pasirinkti kelis"@.len() == 16);
    reveal_strlit("Visi");
    assert("Visi"@.len() == 4);
    reveal_strlit("pasirinkta");
    assert("pasirinkta"@.len() == 10);
    reveal_strlit("Ištrinti pasirinktus");
    assert("Ištrinti pasirinktus"@.len() == 20);
    reveal_strlit("Atšaukti");
    assert("Atšaukti"@.len() == 8);
    reveal_strlit("Ar norite ištrinti {count} įrašų?");
    assert("Ar norite ištrinti {count} įrašų?"@.len() == 33);
    reveal_strlit("Ruošiama...");
    assert("Ruošiama..."@.len() == 11);
    reveal_strlit("Trinama");
    assert("Trinama"@.len() == 7);
    reveal_strlit("ištrinta!");
    assert("ištrinta!"@.len() == 9);
    reveal_strlit("4dy Client nustatymas");
    assert("4dy Client nustatymas"@.len() == 21);
    reveal_strlit("Įveskite savo 3CX žiniatinklio kliento URL:");
    assert("Įveskite savo 3CX žiniatinklio kliento URL:"@.len() == 43);
    reveal_strlit("https://mano-imone.3cx.lt");
    assert("https://mano-imone.3cx.lt"@.len() == 25);
    reveal_strlit("Įveskite URL.");
    assert("Įveskite URL."@.len() == 13);
    reveal_strlit("Įveskite galiojantį URL");
    assert("Įveskite galiojantį URL"@.len() == 23);
    reveal_strlit("Išsaugojimo klaida:");
    assert("Išsaugojimo klaida:"@.len() == 19);
    reveal_strlit("Tęsti");
    assert("Tęsti"@.len() == 5);
    reveal_strlit("Saugoma...");
    assert("Saugoma..."@.len() == 10);
    reveal_strlit("{name}");
    assert("Prašome perskambinti: {name} {number}"@.subrange(22int, 22int + "{name}"@.len()) =~= "{name}"@);
    reveal_strlit("{number}");
    assert("Prašome perskambinti: {name} {number}"@.subrange(29int, 29int + "{number}"@.len()) =~= "{number}"@);
    reveal_strlit("{count}");
    assert("Ar norite ištrinti {count} įrašų?"@.subrange(19int, 19int + "{count}"@.len()) =~= "{count}"@);
}

/// The FI table keeps to `table_shape`.
#[verifier::rlimit(40)]
pub proof fn lemma_fi_table_shape(key: Seq<char>)
    ensures
        table_shape(|k: Seq<char>| fi_entry(k), key),
{
    lemma_keys_distinct();
    reveal_strlit("???");
    assert("???"@.len() == 3);
    reveal_strlit("Näytä");
    assert("Näytä"@.len() == 5);
    reveal_strlit("Lataa asetukset uudelleen");
    assert("Lataa asetukset uudelleen"@.len() == 25);
    reveal_strlit("Rekisteröi tel: käsittelijäksi");
    assert("Rekisteröi tel: käsittelijäksi"@.len() == 30);
    reveal_strlit("DevTools (F12)");
    assert("DevTools (F12)"@.len() == 14);
    reveal_strlit("Avaa asetukset");
    assert("Avaa asetukset"@.len() == 14);
    reveal_strlit("Lopeta");
    assert("Lopeta"@.len() == 6);
    reveal_strlit("✉  Lähetä takaisinsoittosähköposti");
    assert("✉  Lähetä takaisinsoittosähköposti"@.len() == 34);
    reveal_strlit("Soita takaisin: {name} {number}");
    assert("Soita takaisin: {name} {number}"@.len() == 31);
    reveal_strlit("Valitse useita");
    assert("Valitse useita"@.len() == 14);
    reveal_strlit("Kaikki");
    assert("Kaikki"@.len() == 6);
    reveal_strlit("valittu");
    assert("valittu"@.len() == 7);
    reveal_strlit("Poista valitut");
    assert("Poista valitut"@.len() == 14);
    reveal_strlit("Peruuta");
    assert("Peruuta"@.len() == 7);
    reveal_strlit("Haluatko poistaa {count} merkintää?");
    assert("Haluatko poistaa {count} merkintää?"@.len() == 35);
    reveal_strlit("Valmistellaan...");
    assert("Valmistellaan..."@.len() == 16);
    reveal_strlit("Poistetaan");
    assert("Poistetaan"@.len() == 10);
    reveal_strlit("poistettu!");
    assert("poistettu!"@.len() == 10);
    reveal_strlit("4dy Client -asetukset");
    assert("4dy Client -asetukset"@.len() == 21);
    reveal_strlit("Anna 3CX-verkkoasiakkaan URL:");
    assert("Anna 3CX-verkkoasiakkaan URL:"@.len() == 29);
    reveal_strlit("https://yritykseni.3cx.fi");
    assert("https://yritykseni.3cx.fi"@.len() == 25);
    reveal_strlit("Anna URL.");
    assert("Anna URL."@.len() == 9);
    reveal_strlit("Anna kelvollinen URL");
    assert("Anna kelvollinen URL"@.len() == 20);
    reveal_strlit("Tallennusvirhe:");
    assert("Tallennusvirhe:"@.len() == 15);
    reveal_strlit("Jatka");
    assert("Jatka"@.len() == 5);
    reveal_strlit("Tallennetaan...");
    assert("Tallennetaan..."@.len() == 15);
    reveal_strlit("{name}");
    assert("Soita takaisin: {name} {number}"@.subrange(16int, 16int + "{name}"@.len()) =~= "{name}"@);
    reveal_strlit("{number}");
    assert("Soita takaisin: {name} {number}"@.subrange(23int, 23int + "{number}"@.len()) =~= "{number}"@);
    reveal_strlit("{count}");
    assert("Haluatko poistaa {count} merkintää?"@.subrange(17int, 17int + "{count}"@.len()) =~= "{count}"@);
}

/// The SV table keeps to `table_shape`.
#[verifier::rlimit(40)]
pub proof fn lemma_sv_table_shape(key: Seq<char>)
    ensures
        table_shape(|k: Seq<char>| sv_entry(k), key),
{
    lemma_keys_distinct();
    reveal_strlit("???");
    assert("???"@.len() == 3);
    reveal_strlit("Visa");
    assert("Visa"@.len() == 4);
    reveal_strlit("Ladda om konfiguration");
    assert("Ladda om konfiguration"@.len() == 22);
    reveal_strlit("Registrera som tel: hanterare");
    assert("Registrera som tel: hanterare"@.len() == 29);
    reveal_strlit("DevTools (F12)");
    assert("DevTools (F12)"@.len() == 14);
    reveal_strlit("Öppna konfiguration");
    assert("Öppna konfiguration"@.len() == 19);
    reveal_strlit("Avsluta");
    assert("Avsluta"@.len() == 7);
    reveal_strlit("✉  Skicka återuppringningsmail");
    assert("✉  Skicka återuppringningsmail"@.len() == 30);
    reveal_strlit("Vänligen ring tillbaka: {name} {number}");
    assert("Vänligen ring tillbaka: {name} {number}"@.len() == 39);
    reveal_strlit("Välj flera");
    assert("Välj flera"@.len() == 10);
    reveal_strlit("Alla");
    assert("Alla"@.len() == 4);
    reveal_strlit("valda");
    assert("valda"@.len() == 5);
    reveal_strlit("Ta bort valda");
    assert("Ta bort valda"@.len() == 13);
    reveal_strlit("Avbryt");
    assert("Avbryt"@.len() == 6);
    reveal_strlit("Vill du ta bort {count} poster?");
    assert("Vill du ta bort {count} poster?"@.len() == 31);
    reveal_strlit("Förbereder...");
    assert("Förbereder..."@.len() == 13);
    reveal_strlit("Tar bort");
    assert("Tar bort"@.len() == 8);
    reveal_strlit("borttagna!");
    assert("borttagna!"@.len() == 10);
    reveal_strlit("Konfigurera 4dy Client");
    assert("Konfigurera 4dy Client"@.len() == 22);
    reveal_strlit("Ange URL för din 3CX-webbklient:");
    assert("Ange URL för din 3CX-webbklient:"@.len() == 32);
    reveal_strlit("https://mitt-foretag.3cx.se");
    assert("https://mitt-foretag.3cx.se"@.len() == 27);
    reveal_strlit("Ange en URL.");
    assert("Ange en URL."@.len() == 12);
    reveal_strlit("Ange en giltig URL");
    assert("Ange en giltig URL"@.len() == 18);
    reveal_strlit("Fel vid sparning:");
    assert("Fel vid sparning:"@.len() == 17);
    reveal_strlit("Fortsätt");
    assert("Fortsätt"@.len() == 8);
    reveal_strlit("Sparar...");
    assert("Sparar..."@.len() == 9);
    reveal_strlit("{name}");
    assert("Vänligen ring tillbaka: {name} {number}"@.subrange(24int, 24int + "{name}"@.len()) =~= "{name}"@);
    reveal_strlit("{number}");
    assert("Vänligen ring tillbaka: {name} {number}"@.subrange(31int, 31int + "{number}"@.len()) =~= "{number}"@);
    reveal_strlit("{count}");
    assert("Vill du ta bort {count} poster?"@.subrange(16int, 16int + "{count}"@.len()) =~= "{count}"@);
}

/// The NO table keeps to `table_shape`.
#[verifier::rlimit(40)]
pub proof fn lemma_no_table_shape(key: Seq<char>)
    ensures
        table_shape(|k: Seq<char>| no_entry(k), key),
{
    lemma_keys_distinct();
    reveal_strlit("???");
    assert("???"@.len() == 3);
    reveal_strlit("Vis");
    assert("Vis"@.len() == 3);
    assert("Vis"@[0] == 'V');
    reveal_strlit("Last inn konfigurasjon på nytt");
    assert("Last inn konfigurasjon på nytt"@.len() == 30);
    reveal_strlit("Registrer som tel: handler");
    assert("Registrer som tel: handler"@.len() == 26);
    reveal_strlit("DevTools (F12)");
    assert("DevTools (F12)"@.len() == 14);
    reveal_strlit("Åpne konfigurasjon");
    assert("Åpne konfigurasjon"@.len() == 18);
    reveal_strlit("Avslutt");
    assert("Avslutt"@.len() == 7);
    reveal_strlit("✉  Send tilbakeringingsmail");
    assert("✉  Send tilbakeringingsmail"@.len() == 27);
    reveal_strlit("Vennligst ring tilbake: {name} {number}");
    assert("Vennligst ring tilbake: {name} {number}"@.len() == 39);
    reveal_strlit("Velg flere");
    assert("Velg flere"@.len() == 10);
    reveal_strlit("Alle");
    assert("Alle"@.len() == 4);
    reveal_strlit("valgt");
    assert("valgt"@.len() == 5);
    reveal_strlit("Slett valgte");
    assert("Slett valgte"@.len() == 12);
    reveal_strlit("Avbryt");
    assert("Avbryt"@.len() == 6);
    reveal_strlit("Vil du slette {count} oppføringer?");
    assert("Vil du slette {count} oppføringer?"@.len() == 34);
    reveal_strlit("Forbereder...");
    assert("Forbereder..."@.len() == 13);
    reveal_strlit("Sletter");
    assert("Sletter"@.len() == 7);
    reveal_strlit("slettet!");
    assert("slettet!"@.len() == 8);
    reveal_strlit("Konfigurer 4dy Client");
    assert("Konfigurer 4dy Client"@.len() == 21);
    reveal_strlit("Skriv inn URL-en til din 3CX-webklient:");
    assert("Skriv inn URL-en til din 3CX-webklient:"@.len() == 39);
    reveal_strlit("https://mitt-firma.3cx.no");
    assert("https://mitt-firma.3cx.no"@.len() == 25);
    reveal_strlit("Skriv inn en URL.");
    assert("Skriv inn en URL."@.len() == 17);
    reveal_strlit("Skriv inn en gyldig URL");
    assert("Skriv inn en gyldig URL"@.len() == 23);
    reveal_strlit("Feil ved lagring:");
    assert("Feil ved lagring:"@.len() == 17);
    reveal_strlit("Fortsett");
    assert("Fortsett"@.len() == 8);
    reveal_strlit("Lagrer...");
    assert("Lagrer..."@.len() == 9);
    reveal_strlit("{name}");
    assert("Vennligst ring tilbake: {name} {number}"@.subrange(24int, 24int + "{name}"@.len()) =~= "{name}"@);
    reveal_strlit("{number}");
    assert("Vennligst ring tilbake: {name} {number}"@.subrange(31int, 31int + "{number}"@.len()) =~= "{number}"@);
    reveal_strlit("{count}");
    assert("Vil du slette {count} oppføringer?"@.subrange(14int, 14int + "{count}"@.len()) =~= "{count}"@);
}

/// The DA table keeps to `table_shape`.
#[verifier::rlimit(40)]
pub proof fn lemma_da_table_shape(key: Seq<char>)
    ensures
        table_shape(|k: Seq<char>| da_entry(k), key),
{
    lemma_keys_distinct();
    reveal_strlit("???");
    assert("???"@.len() == 3);
    reveal_strlit("Vis");
    assert("Vis"@.len() == 3);
    assert("Vis"@[0] == 'V');
    reveal_strlit("Genindlæs konfiguration");
    assert("Genindlæs konfiguration"@.len() == 23);
    reveal_strlit("Registrer som tel: handler");
    assert("Registrer som tel: handler"@.len() == 26);
    reveal_strlit("DevTools (F12)");
    assert("DevTools (F12)"@.len() == 14);
    reveal_strlit("Åbn konfiguration");
    assert("Åbn konfiguration"@.len() == 17);
    reveal_strlit("Afslut");
    assert("Afslut"@.len() == 6);
    reveal_strlit("✉  Send tilbagekaldsmail");
    assert("✉  Send tilbagekaldsmail"@.len() == 24);
    reveal_strlit("Ring venligst tilbage: {name} {number}");
    assert("Ring venligst tilbage: {name} {number}"@.len() == 38);
    reveal_strlit("Vælg flere");
    assert("Vælg flere"@.len() == 10);
    reveal_strlit("Alle");
    assert("Alle"@.len() == 4);
    reveal_strlit("valgt");
    assert("valgt"@.len() == 5);
    reveal_strlit("Slet valgte");
    assert("Slet valgte"@.len() == 11);
    reveal_strlit("Annuller");
    assert("Annuller"@.len() == 8);
    reveal_strlit("Vil du slette {count} poster?");
    assert("Vil du slette {count} poster?"@.len() == 29);
    reveal_strlit("Forbereder...");
    assert("Forbereder..."@.len() == 13);
    reveal_strlit("Sletter");
    assert("Sletter"@.len() == 7);
    reveal_strlit("slettet!");
    assert("slettet!"@.len() == 8);
    reveal_strlit("Konfigurer 4dy Client");
    assert("Konfigurer 4dy Client"@.len() == 21);
    reveal_strlit("Indtast URL til din 3CX webklient:");
    assert("Indtast URL til din 3CX webklient:"@.len() == 34);
    reveal_strlit("https://min-virksomhed.3cx.dk");
    assert("https://min-virksomhed.3cx.dk"@.len() == 29);
    reveal_strlit("Indtast en URL.");
    assert("Indtast en URL."@.len() == 15);
    reveal_strlit("Indtast en gyldig URL");
    assert("Indtast en gyldig URL"@.len() == 21);
    reveal_strlit("Fejl ved gemning:");
    assert("Fejl ved gemning:"@.len() == 17);
    reveal_strlit("Fortsæt");
    assert("Fortsæt"@.len() == 7);
    reveal_strlit("Gemmer...");
    assert("Gemmer..."@.len() == 9);
    reveal_strlit("{name}");
    assert("Ring venligst tilbage: {name} {number}"@.subrange(23int, 23int + "{name}"@.len()) =~= "{name}"@);
    reveal_strlit("{number}");
    assert("Ring venligst tilbage: {name} {number}"@.subrange(30int, 30int + "{number}"@.len()) =~= "{number}"@);
    reveal_strlit("{count}");
    assert("Vil du slette {count} poster?"@.subrange(14int, 14int + "{count}"@.len()) =~= "{count}"@);
}

/// The EL table keeps to `table_shape`.
#[verifier::rlimit(40)]
pub proof fn lemma_el_table_shape(key: Seq<char>)
    ensures
        table_shape(|k: Seq<char>| el_entry(k), key),
{
    lemma_keys_distinct();
    reveal_strlit("???");
    assert("???"@.len() == 3);
    reveal_strlit("Εμφάνιση");
    assert("Εμφάνιση"@.len() == 8);
    reveal_strlit("Επαναφόρτωση ρυθμίσεων");
    assert("Επαναφόρτωση ρυθμίσεων"@.len() == 22);
    reveal_strlit("Εγγραφή ως χειριστής tel:");
    assert("Εγγραφή ως χειριστής tel:"@.len() == 25);
    reveal_strlit("DevTools (F12)");
    assert("DevTools (F12)"@.len() == 14);
    reveal_strlit("Άνοιγμα ρυθμίσεων");
    assert("Άνοιγμα ρυθμίσεων"@.len() == 17);
    reveal_strlit("Έξοδος");
    assert("Έξοδος"@.len() == 6);
    reveal_strlit("✉  Αποστολή email επιστροφής κλήσης");
    assert("✉  Αποστολή email επιστροφής κλήσης"@.len() == 35);
    reveal_strlit("Παρακαλώ καλέστε πίσω: {name} {number}");
    assert("Παρακαλώ καλέστε πίσω: {name} {number}"@.len() == 38);
    reveal_strlit("Επιλογή πολλαπλών");
    assert("Επιλογή πολλαπλών"@.len() == 17);
    reveal_strlit("Όλα");
    assert("Όλα"@.len() == 3);
    assert("Όλα"@[0] == 'Ό');
    reveal_strlit("επιλεγμένα");
    assert("επιλεγμένα"@.len() == 10);
    reveal_strlit("Διαγραφή επιλεγμένων");
    assert("Διαγραφή επιλεγμένων"@.len() == 20);
    reveal_strlit("Ακύρωση");
    assert("Ακύρωση"@.len() == 7);
    reveal_strlit("Θέλετε να διαγράψετε {count} εγγραφές;");
    assert("Θέλετε να διαγράψετε {count} εγγραφές;"@.len() == 38);
    reveal_strlit("Προετοιμασία...");
    assert("Προετοιμασία..."@.len() == 15);
    reveal_strlit("Διαγραφή");
    assert("Διαγραφή"@.len() == 8);
    reveal_strlit("διαγράφηκαν!");
    assert("διαγράφηκαν!"@.len() == 12);
    reveal_strlit("Ρύθμιση 4dy Client");
    assert("Ρύθμιση 4dy Client"@.len() == 18);
    reveal_strlit("Εισάγετε το URL του 3CX web client σας:");
    assert("Εισάγετε το URL του 3CX web client σας:"@.len() == 39);
    reveal_strlit("https://i-etairia-mou.3cx.gr");
    assert("https://i-etairia-mou.3cx.gr"@.len() == 28);
    reveal_strlit("Εισάγετε ένα URL.");
    assert("Εισάγετε ένα URL."@.len() == 17);
    reveal_strlit("Εισάγετε έγκυρο URL");
    assert("Εισάγετε έγκυρο URL"@.len() == 19);
    reveal_strlit("Σφάλμα αποθήκευσης:");
    assert("Σφάλμα αποθήκευσης:"@.len() == 19);
    reveal_strlit("Συνέχεια");
    assert("Συνέχεια"@.len() == 8);
    reveal_strlit("Αποθήκευση...");
    assert("Αποθήκευση..."@.len() == 13);
    reveal_strlit("{name}");
    assert("Παρακαλώ καλέστε πίσω: {name} {number}"@.subrange(23int, 23int + "{name}"@.len()) =~= "{name}"@);
    reveal_strlit("{number}");
    assert("Παρακαλώ καλέστε πίσω: {name} {number}"@.subrange(30int, 30int + "{number}"@.len()) =~= "{number}"@);
    reveal_strlit("{count}");
    assert("Θέλετε να διαγράψετε {count} εγγραφές;"@.subrange(21int, 21int + "{count}"@.len()) =~= "{count}"@);
}

/// The TR table keeps to `table_shape`.
#[verifier::rlimit(40)]
pub proof fn lemma_tr_table_shape(key: Seq<char>)
    ensures
        table_shape(|k: Seq<char>| tr_entry(k), key),
{
    lemma_keys_distinct();
    reveal_strlit("???");
    assert("???"@.len() == 3);
    reveal_strlit("Göster");
    assert("Göster"@.len() == 6);
    reveal_strlit("Yapılandırmayı yeniden yükle");
    assert("Yapılandırmayı yeniden yükle"@.len() == 28);
    reveal_strlit("tel: işleyicisi olarak kaydet");
    assert("tel: işleyicisi olarak kaydet"@.len() == 29);
    reveal_strlit("DevTools (F12)");
    assert("DevTools (F12)"@.len() == 14);
    reveal_strlit("Yapılandırmayı aç");
    assert("Yapılandırmayı aç"@.len() == 17);
    reveal_strlit("Çıkış");
    assert("Çıkış"@.len() == 5);
    reveal_strlit("✉  Geri arama e-postası gönder");
    assert("✉  Geri arama e-postası gönder"@.len() == 30);
    reveal_strlit("Lütfen geri arayın: {name} {number}");
    assert("Lütfen geri arayın: {name} {number}"@.len() == 35);
    reveal_strlit("Birden fazla seç");
    assert("Birden fazla seç"@.len() == 16);
    reveal_strlit("Tümü");
    assert("Tümü"@.len() == 4);
    reveal_strlit("seçildi");
    assert("seçildi"@.len() == 7);
    reveal_strlit("Seçilenleri sil");
    assert("Seçilenleri sil"@.len() == 15);
    reveal_strlit("İptal");
    assert("İptal"@.len() == 5);
    reveal_strlit("{count} kaydı silmek istiyor musunuz?");
    assert("{count} kaydı silmek istiyor musunuz?"@.len() == 37);
    reveal_strlit("Hazırlanıyor...");
    assert("Hazırlanıyor..."@.len() == 15);
    reveal_strlit("Siliniyor");
    assert("Siliniyor"@.len() == 9);
    reveal_strlit("silindi!");
    assert("silindi!"@.len() == 8);
    reveal_strlit("4dy Client kurulumu");
    assert("4dy Client kurulumu"@.len() == 19);
    reveal_strlit("3CX web istemcinizin adresini (URL) girin:");
    assert("3CX web istemcinizin adresini (URL) girin:"@.len() == 42);
    reveal_strlit("https://sirketim.3cx.com.tr");
    assert("https://sirketim.3cx.com.tr"@.len() == 27);
    reveal_strlit("Lütfen bir URL girin.");
    assert("Lütfen bir URL girin."@.len() == 21);
    reveal_strlit("Lütfen geçerli bir URL girin");
    assert("Lütfen geçerli bir URL girin"@.len() == 28);
    reveal_strlit("Kaydetme hatası:");
    assert("Kaydetme hatası:"@.len() == 16);
    reveal_strlit("Devam");
    assert("Devam"@.len() == 5);
    reveal_strlit("Kaydediliyor...");
    assert("Kaydediliyor..."@.len() == 15);
    reveal_strlit("{name}");
    assert("Lütfen geri arayın: {name} {number}"@.subrange(20int, 20int + "{name}"@.len()) =~= "{name}"@);
    reveal_strlit("{number}");
    assert("Lütfen geri arayın: {name} {number}"@.subrange(27int, 27int + "{number}"@.len()) =~= "{number}"@);
    reveal_strlit("{count}");
    assert("{count} kaydı silmek istiyor musunuz?"@.subrange(0int, 0int + "{count}"@.len()) =~= "{count}"@);
}

/// The RU table keeps to `table_shape`.
#[verifier::rlimit(40)]
pub proof fn lemma_ru_table_shape(key: Seq<char>)
    ensures
        table_shape(|k: Seq<char>| ru_entry(k), key),
{
    lemma_keys_distinct();
    reveal_strlit("???");
    assert("???"@.len() == 3);
    reveal_strlit("Показать");
    assert("Показать"@.len() == 8);
    reveal_strlit("Перезагрузить конфигурацию");
    assert("Перезагрузить конфигурацию"@.len() == 26);
    reveal_strlit("Зарегистрировать как обработчик tel:");
    assert("Зарегистрировать как обработчик tel:"@.len() == 36);
    reveal_strlit("DevTools (F12)");
    assert("DevTools (F12)"@.len() == 14);
    reveal_strlit("Открыть конфигурацию");
    assert("Открыть конфигурацию"@.len() == 20);
    reveal_strlit("Выход");
    assert("Выход"@.len() == 5);
    reveal_strlit("✉  Отправить письмо с просьбой перезвонить");
    assert("✉  Отправить письмо с просьбой перезвонить"@.len() == 42);
    reveal_strlit("Пожалуйста, перезвоните: {name} {number}");
    assert("Пожалуйста, перезвоните: {name} {number}"@.len() == 40);
    reveal_strlit("Выбрать несколько");
    assert("Выбрать несколько"@.len() == 17);
    reveal_strlit("Все");
    assert("Все"@.len() == 3);
    assert("Все"@[0] == 'В');
    reveal_strlit("выбрано");
    assert("выбрано"@.len() == 7);
    reveal_strlit("Удалить выбранные");
    assert("Удалить выбранные"@.len() == 17);
    reveal_strlit("Отмена");
    assert("Отмена"@.len() == 6);
    reveal_strlit("Удалить записи ({count})?");
    assert("Удалить записи ({count})?"@.len() == 25);
    reveal_strlit("Подготовка...");
    assert("Подготовка..."@.len() == 13);
    reveal_strlit("Удаление");
    assert("Удаление"@.len() == 8);
    reveal_strlit("удалено!");
    assert("удалено!"@.len() == 8);
    reveal_strlit("Настройка 4dy Client");
    assert("Настройка 4dy Client"@.len() == 20);
    reveal_strlit("Введите URL вашего веб-клиента 3CX:");
    assert("Введите URL вашего веб-клиента 3CX:"@.len() == 35);
    reveal_strlit("https://moya-kompaniya.3cx.ru");
    assert("https://moya-kompaniya.3cx.ru"@.len() == 29);
    reveal_strlit("Введите URL.");
    assert("Введите URL."@.len() == 12);
    reveal_strlit("Введите корректный URL");
    assert("Введите корректный URL"@.len() == 22);
    reveal_strlit("Ошибка сохранения:");
    assert("Ошибка сохранения:"@.len() == 18);
    reveal_strlit("Продолжить");
    assert("Продолжить"@.len() == 10);
    reveal_strlit("Сохранение...");
    assert("Сохранение..."@.len() == 13);
    reveal_strlit("{name}");
    assert("Пожалуйста, перезвоните: {name} {number}"@.subrange(25int, 25int + "{name}"@.len()) =~= "{name}"@);
    reveal_strlit("{number}");
    assert("Пожалуйста, перезвоните: {name} {number}"@.subrange(32int, 32int + "{number}"@.len()) =~= "{number}"@);
    reveal_strlit("{count}");
    assert("Удалить записи ({count})?"@.subrange(16int, 16int + "{count}"@.len()) =~= "{count}"@);
}

} // verus!
