use crowdfund::{Config, Currency, Error, Event, NombreProyecto, Origen, Pallet, Retiro};

/// A ledger in memory. An account that must stay alive keeps at least `minimo`.
struct Libro {
    cuentas: Vec<(u64, u128)>,
    minimo: u128,
    consultas: usize,
    retiros: Vec<(u64, u128, bool)>,
}

impl Libro {
    fn con(cuentas: Vec<(u64, u128)>, minimo: u128) -> Libro {
        Libro { cuentas, minimo, consultas: 0, retiros: Vec::new() }
    }

    fn saldo(&self, quien: u64) -> u128 {
        self.cuentas.iter().find(|c| c.0 == quien).map(|c| c.1).unwrap_or(0)
    }
}

impl Currency<u64> for Libro {
    fn free_balance(&self, quien: &u64) -> u128 {
        self.saldo(*quien)
    }

    fn withdraw(&mut self, quien: &u64, cantidad: u128, mantener_viva: bool) -> Result<(), Error> {
        self.retiros.push((*quien, cantidad, mantener_viva));
        let minimo = if mantener_viva { self.minimo } else { 0 };
        for cuenta in self.cuentas.iter_mut() {
            if cuenta.0 == *quien {
                if cuenta.1 < cantidad || cuenta.1 - cantidad < minimo {
                    return Err(Error::RetiroRechazado);
                }
                cuenta.1 -= cantidad;
                return Ok(());
            }
        }
        Err(Error::RetiroRechazado)
    }
}

/// A ledger that counts how often its balance is asked for.
struct Contador {
    consultas: std::cell::Cell<usize>,
    retiros: usize,
}

impl Currency<u64> for Contador {
    fn free_balance(&self, _quien: &u64) -> u128 {
        self.consultas.set(self.consultas.get() + 1);
        1_000
    }

    fn withdraw(&mut self, _quien: &u64, _cantidad: u128, _mantener_viva: bool) -> Result<(), Error> {
        self.retiros += 1;
        Ok(())
    }
}

fn pallet_3_10() -> Pallet {
    Pallet::new(Config::new(3, 10).unwrap())
}

fn saldo_de(pallet: &Pallet, nombre: &str) -> u128 {
    let nombre = NombreProyecto::validar(pallet.config(), nombre.as_bytes().to_vec()).unwrap();
    pallet.proyectos().get(&nombre)
}

fn registrado(pallet: &Pallet, nombre: &str) -> bool {
    let nombre = NombreProyecto::validar(pallet.config(), nombre.as_bytes().to_vec()).unwrap();
    pallet.proyectos().contains_key(&nombre)
}

fn bytes(nombre: &str) -> Vec<u8> {
    nombre.as_bytes().to_vec()
}

#[test]
fn create_then_support_then_overdraw() {
    let mut pallet = pallet_3_10();
    let mut libro = Libro::con(vec![(7, 100)], 0);

    assert_eq!(pallet.crear_proyecto(Origen::Firmado(7u64), bytes("ab")), Err(Error::NombreMuyCorto));

    let creado = pallet.crear_proyecto(Origen::Firmado(7u64), bytes("ValidName"));
    assert!(creado.is_ok());
    assert!(registrado(&pallet, "ValidName"));
    assert_eq!(saldo_de(&pallet, "ValidName"), 0);

    let apoyado = pallet.apoyar_proyecto(Origen::Firmado(7u64), bytes("ValidName"), 50, &mut libro);
    assert!(apoyado.is_ok());
    assert_eq!(saldo_de(&pallet, "ValidName"), 50);
    assert_eq!(libro.saldo(7), 50);

    let excedido = pallet.apoyar_proyecto(Origen::Firmado(7u64), bytes("ValidName"), 200, &mut libro);
    assert_eq!(excedido, Err(Error::FondosInsuficientes));
    assert_eq!(saldo_de(&pallet, "ValidName"), 50);
    assert_eq!(libro.saldo(7), 50);
}

#[test]
fn support_reports_the_project_and_the_amount() {
    let mut pallet = pallet_3_10();
    let mut libro = Libro::con(vec![(1, 30)], 0);
    pallet.crear_proyecto(Origen::Firmado(1u64), bytes("huerto")).unwrap();
    let evento = pallet.apoyar_proyecto(Origen::Firmado(1u64), bytes("huerto"), 30, &mut libro).unwrap();
    match evento {
        Event::ProyectoApoyado { nombre, cantidad } => {
            assert_eq!(nombre.as_bytes(), b"huerto");
            assert_eq!(cantidad, 30);
        }
        otro => panic!("unexpected event {:?}", otro),
    }
    assert_eq!(libro.saldo(1), 0);
    assert_eq!(saldo_de(&pallet, "huerto"), 30);
}

#[test]
fn support_asks_for_one_debit_of_the_exact_amount_keeping_alive() {
    let mut pallet = pallet_3_10();
    let mut libro = Libro::con(vec![(1, 500), (2, 500)], 0);
    pallet.crear_proyecto(Origen::Firmado(1u64), bytes("huerto")).unwrap();
    pallet.apoyar_proyecto(Origen::Firmado(2u64), bytes("huerto"), 120, &mut libro).unwrap();
    assert_eq!(libro.retiros, vec![(2, 120, true)]);
    assert_eq!(libro.saldo(1), 500);
    assert_eq!(libro.saldo(2), 380);
}

#[test]
fn contributions_add_up_across_callers() {
    let mut pallet = pallet_3_10();
    let mut libro = Libro::con(vec![(1, 100), (2, 100)], 0);
    pallet.crear_proyecto(Origen::Firmado(1u64), bytes("huerto")).unwrap();
    pallet.crear_proyecto(Origen::Firmado(1u64), bytes("taller")).unwrap();
    pallet.apoyar_proyecto(Origen::Firmado(1u64), bytes("huerto"), 40, &mut libro).unwrap();
    pallet.apoyar_proyecto(Origen::Firmado(2u64), bytes("huerto"), 25, &mut libro).unwrap();
    pallet.apoyar_proyecto(Origen::Firmado(2u64), bytes("taller"), 5, &mut libro).unwrap();
    assert_eq!(saldo_de(&pallet, "huerto"), 65);
    assert_eq!(saldo_de(&pallet, "taller"), 5);
    assert_eq!(libro.saldo(1), 60);
    assert_eq!(libro.saldo(2), 70);
}

#[test]
fn support_of_the_whole_balance_is_allowed() {
    let mut pallet = pallet_3_10();
    let mut libro = Libro::con(vec![(1, 100)], 0);
    pallet.crear_proyecto(Origen::Firmado(1u64), bytes("huerto")).unwrap();
    assert!(pallet.apoyar_proyecto(Origen::Firmado(1u64), bytes("huerto"), 100, &mut libro).is_ok());
    assert_eq!(saldo_de(&pallet, "huerto"), 100);
    assert_eq!(libro.saldo(1), 0);
}

#[test]
fn support_of_one_more_than_the_balance_is_refused() {
    let mut pallet = pallet_3_10();
    let mut libro = Libro::con(vec![(1, 100)], 0);
    pallet.crear_proyecto(Origen::Firmado(1u64), bytes("huerto")).unwrap();
    assert_eq!(
        pallet.apoyar_proyecto(Origen::Firmado(1u64), bytes("huerto"), 101, &mut libro),
        Err(Error::FondosInsuficientes)
    );
    assert_eq!(saldo_de(&pallet, "huerto"), 0);
    assert_eq!(libro.saldo(1), 100);
    assert!(libro.retiros.is_empty());
}

#[test]
fn support_of_nothing_changes_nothing() {
    let mut pallet = pallet_3_10();
    let mut libro = Libro::con(vec![(1, 100)], 0);
    pallet.crear_proyecto(Origen::Firmado(1u64), bytes("huerto")).unwrap();
    assert!(pallet.apoyar_proyecto(Origen::Firmado(1u64), bytes("huerto"), 0, &mut libro).is_ok());
    assert_eq!(saldo_de(&pallet, "huerto"), 0);
    assert_eq!(libro.saldo(1), 100);
}

#[test]
fn support_of_an_unknown_project_touches_nothing() {
    let mut pallet = pallet_3_10();
    let mut libro = Libro::con(vec![(1, 100)], 0);
    pallet.crear_proyecto(Origen::Firmado(1u64), bytes("huerto")).unwrap();
    assert_eq!(
        pallet.apoyar_proyecto(Origen::Firmado(1u64), bytes("taller"), 10, &mut libro),
        Err(Error::ProyectoNoExiste)
    );
    assert!(!registrado(&pallet, "taller"));
    assert_eq!(saldo_de(&pallet, "huerto"), 0);
    assert_eq!(libro.saldo(1), 100);
    assert!(libro.retiros.is_empty());
}

#[test]
fn support_checks_the_name_before_it_looks_the_project_up() {
    let mut pallet = pallet_3_10();
    let mut libro = Libro::con(vec![(1, 100)], 0);
    assert_eq!(
        pallet.apoyar_proyecto(Origen::Firmado(1u64), bytes("ab"), 10, &mut libro),
        Err(Error::NombreMuyCorto)
    );
    assert_eq!(
        pallet.apoyar_proyecto(Origen::Firmado(1u64), bytes("elevenbytes"), 10, &mut libro),
        Err(Error::NombreMuyLargo)
    );
    assert_eq!(libro.saldo(1), 100);
    assert!(libro.retiros.is_empty());
}

#[test]
fn support_by_an_unsigned_origin_is_refused() {
    let mut pallet = pallet_3_10();
    let mut libro = Libro::con(vec![(1, 100)], 0);
    pallet.crear_proyecto(Origen::Firmado(1u64), bytes("huerto")).unwrap();
    for origen in [Origen::<u64>::Raiz, Origen::Ninguno, Origen::Autorizado] {
        assert_eq!(
            pallet.apoyar_proyecto(origen, bytes("huerto"), 10, &mut libro),
            Err(Error::OrigenNoFirmado)
        );
    }
    assert_eq!(saldo_de(&pallet, "huerto"), 0);
    assert_eq!(libro.saldo(1), 100);
    assert!(libro.retiros.is_empty());
}

#[test]
fn refused_debit_leaves_the_pool_as_it_was() {
    let mut pallet = pallet_3_10();
    // The caller can spend 100, but must keep 10 to stay alive.
    let mut libro = Libro::con(vec![(1, 100)], 10);
    pallet.crear_proyecto(Origen::Firmado(1u64), bytes("huerto")).unwrap();
    pallet.apoyar_proyecto(Origen::Firmado(1u64), bytes("huerto"), 20, &mut libro).unwrap();
    assert_eq!(saldo_de(&pallet, "huerto"), 20);

    let r = pallet.apoyar_proyecto(Origen::Firmado(1u64), bytes("huerto"), 75, &mut libro);
    assert_eq!(r, Err(Error::RetiroRechazado));
    assert_eq!(saldo_de(&pallet, "huerto"), 20);
    assert_eq!(libro.saldo(1), 80);
    assert_eq!(libro.retiros, vec![(1, 20, true), (1, 75, true)]);
}

#[test]
fn pool_that_cannot_hold_more_refuses_before_the_debit() {
    let mut pallet = pallet_3_10();
    let mut libro = Libro::con(vec![(1, u128::MAX), (2, 10)], 0);
    pallet.crear_proyecto(Origen::Firmado(1u64), bytes("huerto")).unwrap();
    pallet.apoyar_proyecto(Origen::Firmado(1u64), bytes("huerto"), u128::MAX - 5, &mut libro).unwrap();
    assert_eq!(saldo_de(&pallet, "huerto"), u128::MAX - 5);

    assert_eq!(
        pallet.apoyar_proyecto(Origen::Firmado(2u64), bytes("huerto"), 6, &mut libro),
        Err(Error::DesbordeAritmetico)
    );
    assert_eq!(saldo_de(&pallet, "huerto"), u128::MAX - 5);
    assert_eq!(libro.saldo(2), 10);
    assert_eq!(libro.retiros.len(), 1);

    assert!(pallet.apoyar_proyecto(Origen::Firmado(2u64), bytes("huerto"), 5, &mut libro).is_ok());
    assert_eq!(saldo_de(&pallet, "huerto"), u128::MAX);
    assert_eq!(libro.saldo(2), 5);
}

#[test]
fn too_little_money_is_reported_before_a_full_pool() {
    let mut pallet = pallet_3_10();
    let mut libro = Libro::con(vec![(1, u128::MAX), (2, 3)], 0);
    pallet.crear_proyecto(Origen::Firmado(1u64), bytes("huerto")).unwrap();
    pallet.apoyar_proyecto(Origen::Firmado(1u64), bytes("huerto"), u128::MAX, &mut libro).unwrap();
    assert_eq!(
        pallet.apoyar_proyecto(Origen::Firmado(2u64), bytes("huerto"), 4, &mut libro),
        Err(Error::FondosInsuficientes)
    );
}

#[test]
fn ledger_is_asked_only_once_the_project_is_found() {
    let mut pallet = pallet_3_10();
    let mut contador = Contador { consultas: std::cell::Cell::new(0), retiros: 0 };
    pallet.crear_proyecto(Origen::Firmado(1u64), bytes("huerto")).unwrap();

    let _ = pallet.apoyar_proyecto(Origen::<u64>::Ninguno, bytes("huerto"), 1, &mut contador);
    let _ = pallet.apoyar_proyecto(Origen::Firmado(1u64), bytes("h"), 1, &mut contador);
    let _ = pallet.apoyar_proyecto(Origen::Firmado(1u64), bytes("taller"), 1, &mut contador);
    assert_eq!(contador.consultas.get(), 0);
    assert_eq!(contador.retiros, 0);

    let _ = pallet.apoyar_proyecto(Origen::Firmado(1u64), bytes("huerto"), 2_000, &mut contador);
    assert_eq!(contador.consultas.get(), 1);
    assert_eq!(contador.retiros, 0);

    assert!(pallet.apoyar_proyecto(Origen::Firmado(1u64), bytes("huerto"), 1_000, &mut contador).is_ok());
    assert_eq!(contador.consultas.get(), 2);
    assert_eq!(contador.retiros, 1);
    assert_eq!(saldo_de(&pallet, "huerto"), 1_000);
}

#[test]
fn authorising_names_the_debit_and_changes_nothing() {
    let mut pallet = pallet_3_10();
    pallet.crear_proyecto(Origen::Firmado(1u64), bytes("huerto")).unwrap();
    let pedido = pallet.autorizar_apoyo(Origen::Firmado(9u64), bytes("huerto"), 50, 100).unwrap();
    assert_eq!(pedido.quien, 9);
    assert_eq!(pedido.cantidad, 50);
    assert!(pedido.mantener_viva);
    assert_eq!(pedido.nombre.as_bytes(), b"huerto");
    assert_eq!(saldo_de(&pallet, "huerto"), 0);
}

#[test]
fn authorising_refuses_in_the_order_of_the_checks() {
    let mut pallet = pallet_3_10();
    pallet.crear_proyecto(Origen::Firmado(1u64), bytes("huerto")).unwrap();
    assert_eq!(
        pallet.autorizar_apoyo(Origen::<u64>::Raiz, bytes("h"), 50, 10),
        Err(Error::OrigenNoFirmado)
    );
    assert_eq!(
        pallet.autorizar_apoyo(Origen::Firmado(1u64), bytes("h"), 50, 10),
        Err(Error::NombreMuyCorto)
    );
    assert_eq!(
        pallet.autorizar_apoyo(Origen::Firmado(1u64), bytes("taller"), 50, 10),
        Err(Error::ProyectoNoExiste)
    );
    assert_eq!(
        pallet.autorizar_apoyo(Origen::Firmado(1u64), bytes("huerto"), 50, 49),
        Err(Error::FondosInsuficientes)
    );
    assert!(pallet.autorizar_apoyo(Origen::Firmado(1u64), bytes("huerto"), 50, 50).is_ok());
}

#[test]
fn settling_credits_only_a_debit_that_was_made() {
    let mut pallet = pallet_3_10();
    pallet.crear_proyecto(Origen::Firmado(1u64), bytes("huerto")).unwrap();

    let pedido = pallet.autorizar_apoyo(Origen::Firmado(1u64), bytes("huerto"), 50, 100).unwrap();
    let rechazado = pallet.liquidar_apoyo(pedido.clone(), Err(Error::RetiroRechazado));
    assert_eq!(rechazado, Err(Error::RetiroRechazado));
    assert_eq!(saldo_de(&pallet, "huerto"), 0);

    let hecho = pallet.liquidar_apoyo(pedido.clone(), Ok(()));
    assert_eq!(
        hecho,
        Ok(Event::ProyectoApoyado { nombre: pedido.nombre.clone(), cantidad: 50 })
    );
    assert_eq!(saldo_de(&pallet, "huerto"), 50);

    let otra_vez = pallet.liquidar_apoyo(pedido, Ok(()));
    assert!(otra_vez.is_ok());
    assert_eq!(saldo_de(&pallet, "huerto"), 100);
}

#[test]
fn settling_refuses_what_the_registry_cannot_take() {
    let mut pallet = pallet_3_10();
    let mut otro = pallet_3_10();
    otro.crear_proyecto(Origen::Firmado(1u64), bytes("taller")).unwrap();
    let ajeno = otro.autorizar_apoyo(Origen::Firmado(1u64), bytes("taller"), 5, 5).unwrap();
    assert_eq!(pallet.liquidar_apoyo(ajeno, Ok(())), Err(Error::ProyectoNoExiste));
    assert!(!registrado(&pallet, "taller"));

    pallet.crear_proyecto(Origen::Firmado(1u64), bytes("huerto")).unwrap();
    let grande = Retiro {
        quien: 1u64,
        nombre: NombreProyecto::validar(pallet.config(), bytes("huerto")).unwrap(),
        cantidad: u128::MAX,
        mantener_viva: true,
    };
    assert!(pallet.liquidar_apoyo(grande.clone(), Ok(())).is_ok());
    assert_eq!(pallet.liquidar_apoyo(grande, Ok(())), Err(Error::DesbordeAritmetico));
    assert_eq!(saldo_de(&pallet, "huerto"), u128::MAX);
}
